use std::cell::Cell;
use zenoh_flow::loader::{
    load_lib, load_lib_operator, load_lib_sink, load_lib_source, load_operator, load_sink,
    load_source, locate_plugin, make_file_path, OperatorDeclaration, PluginLocation,
    RuntimeVersions, SinkDeclaration, SourceDeclaration, Uri, OPERATOR_SYMBOL, SINK_SYMBOL,
    SOURCE_SYMBOL,
};
use zenoh_flow::types::{ZFError, ZFResult};

fn runtime(rustc: &str, core: &str) -> RuntimeVersions {
    RuntimeVersions { rustc_version: String::from(rustc), core_version: String::from(core) }
}

#[test]
fn version_gate() {
    let registered = Cell::new(false);
    let decl = OperatorDeclaration {
        rustc_version: String::from("1.50.0"),
        core_version: String::from("X"),
        register: || -> ZFResult<u32> {
            registered.set(true);
            Ok(1)
        },
    };
    let r = load_lib_operator("library", decl, &runtime("1.50.0", "Y"));
    assert_eq!(r, Err(ZFError::VersionMismatch));
    assert!(!registered.get());
}

#[test]
fn toolchain_mismatch_is_refused_too() {
    let registered = Cell::new(false);
    let decl = SourceDeclaration {
        rustc_version: String::from("1.50.0"),
        core_version: String::from("0.1.0"),
        register: || -> ZFResult<u32> {
            registered.set(true);
            Ok(1)
        },
    };
    let r = load_lib_source((), decl, &runtime("1.50.1", "0.1.0"));
    assert_eq!(r, Err(ZFError::VersionMismatch));
    assert!(!registered.get());
}

#[test]
fn versions_are_compared_exactly() {
    let rt = runtime("1.50.0", "0.1.0");
    let ok = || -> ZFResult<u8> { Ok(0) };
    for (rustc, core) in
        [("1.50.0 ", "0.1.0"), ("1.50.0", "0.1.0-rc"), ("", ""), ("1.50.0", "0.1.0\0"), ("1.50.0", "0.1.O")]
    {
        let r = load_lib((), &String::from(rustc), &String::from(core), ok, &rt);
        assert_eq!(r, Err(ZFError::VersionMismatch));
    }
    assert_eq!(load_lib(5, &String::from("1.50.0"), &String::from("0.1.0"), ok, &rt), Ok((5, 0)));
}

#[test]
fn matching_versions_register_once() {
    let calls = Cell::new(0);
    let decl = SinkDeclaration {
        rustc_version: String::from("1.50.0"),
        core_version: String::from("0.1.0"),
        register: || -> ZFResult<&'static str> {
            calls.set(calls.get() + 1);
            Ok("instance")
        },
    };
    let r = load_lib_sink("library", decl, &runtime("1.50.0", "0.1.0"));
    assert_eq!(r, Ok(("library", "instance")));
    assert_eq!(calls.get(), 1);
}

#[test]
fn a_failing_register_fails_the_load() {
    let decl = OperatorDeclaration {
        rustc_version: String::from("r"),
        core_version: String::from("c"),
        register: || -> ZFResult<u32> { Err(ZFError::MissingState) },
    };
    assert_eq!(load_lib_operator((), decl, &runtime("r", "c")), Err(ZFError::MissingState));
}

#[test]
fn file_uri_gives_the_file_to_open() {
    assert_eq!(
        load_operator("file:///usr/lib/libplus_one.so"),
        Ok(PluginLocation {
            file_path: String::from("/usr/lib/libplus_one.so"),
            symbol: String::from("zfoperator_declaration"),
        })
    );
    assert_eq!(
        load_source("file:///tmp/libsource.so"),
        Ok(PluginLocation {
            file_path: String::from("/tmp/libsource.so"),
            symbol: String::from("zfsource_declaration"),
        })
    );
    assert_eq!(
        load_sink("file:///tmp/libsink.so"),
        Ok(PluginLocation {
            file_path: String::from("/tmp/libsink.so"),
            symbol: String::from("zfsink_declaration"),
        })
    );
}

#[test]
fn host_and_path_are_concatenated() {
    assert_eq!(
        load_operator("file://target/debug/libop.so"),
        Ok(PluginLocation {
            file_path: String::from("target/debug/libop.so"),
            symbol: String::from(OPERATOR_SYMBOL),
        })
    );
}

#[test]
fn other_schemes_are_unimplemented() {
    assert_eq!(load_operator("https://example.com/libop.so"), Err(ZFError::Unimplemented));
    assert_eq!(load_source("ftp://example.com/libsource.so"), Err(ZFError::Unimplemented));
    assert_eq!(load_sink("zf://registry/sink"), Err(ZFError::Unimplemented));
}

#[test]
fn scheme_is_recognised_whatever_its_case() {
    assert_eq!(
        load_sink("FILE:///tmp/libsink.so"),
        Ok(PluginLocation {
            file_path: String::from("/tmp/libsink.so"),
            symbol: String::from(SINK_SYMBOL),
        })
    );
}

#[test]
fn unparsable_uri_is_a_parsing_error() {
    assert_eq!(
        load_operator("not a uri"),
        Err(ZFError::ParsingError(String::from("relative URL without a base")))
    );
    assert_eq!(
        load_source(""),
        Err(ZFError::ParsingError(String::from("relative URL without a base")))
    );
    assert!(matches!(load_sink("http://[::1"), Err(ZFError::ParsingError(_))));
}

#[test]
fn locate_plugin_applies_the_rule() {
    let uri = |scheme: &str, host: Option<&str>, path: &str| Uri {
        scheme: String::from(scheme),
        host: host.map(String::from),
        path: String::from(path),
    };
    assert_eq!(
        locate_plugin(Ok(uri("file", None, "/a/b.so")), SOURCE_SYMBOL),
        Ok(PluginLocation {
            file_path: String::from("/a/b.so"),
            symbol: String::from("zfsource_declaration"),
        })
    );
    assert_eq!(
        locate_plugin(Ok(uri("file", Some("h"), "/b.so")), "sym"),
        Ok(PluginLocation { file_path: String::from("h/b.so"), symbol: String::from("sym") })
    );
    assert_eq!(locate_plugin(Ok(uri("File", None, "/a")), "sym"), Err(ZFError::Unimplemented));
    assert_eq!(locate_plugin(Ok(uri("", None, "")), "sym"), Err(ZFError::Unimplemented));
    assert_eq!(
        locate_plugin(Err(String::from("empty host")), "sym"),
        Err(ZFError::ParsingError(String::from("empty host")))
    );
}

#[test]
fn file_path_of_a_uri() {
    let with_host = Uri {
        scheme: String::from("file"),
        host: Some(String::from("host")),
        path: String::from("/dir/lib.so"),
    };
    assert_eq!(make_file_path(&with_host), "host/dir/lib.so");
    let without =
        Uri { scheme: String::from("file"), host: None, path: String::from("/dir/lib.so") };
    assert_eq!(make_file_path(&without), "/dir/lib.so");
    let empty_host =
        Uri { scheme: String::from("file"), host: Some(String::new()), path: String::new() };
    assert_eq!(make_file_path(&empty_host), "");
}
