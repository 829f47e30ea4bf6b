//! The decisions of the plugin loader: where the library of a node lies, and
//! whether what it declares may enter the runtime.
//!
//! Opening the file is the caller's work. It happens between
//! [`load_operator`] (or its siblings), which says what to open and which
//! symbol to read, and [`load_lib_operator`], which takes what was read.

use vstd::prelude::*;
use vstd::string::*;
use crate::types::{ZFError, ZFErrorView, ZFResult};

verus! {

/// The symbol under which a library declares an operator.
pub const OPERATOR_SYMBOL: &'static str = "zfoperator_declaration";

/// The symbol under which a library declares a source.
pub const SOURCE_SYMBOL: &'static str = "zfsource_declaration";

/// The symbol under which a library declares a sink.
pub const SINK_SYMBOL: &'static str = "zfsink_declaration";

/// The parts of a URI that the loader reads.
#[derive(Debug, PartialEq, Eq)]
pub struct Uri {
    pub scheme: String,
    pub host: Option<String>,
    pub path: String,
}

/// Mathematical value of a [`Uri`].
pub struct UriView {
    pub scheme: Seq<char>,
    pub host: Option<Seq<char>>,
    pub path: Seq<char>,
}

impl View for Uri {
    type V = UriView;

    open spec fn view(&self) -> UriView {
        UriView {
            scheme: self.scheme@,
            host: match self.host {
                Some(h) => Some(h@),
                None => None,
            },
            path: self.path@,
        }
    }
}

/// What `url::Url::parse` makes of a string: the scheme, host and path of the
/// URL it returns, or the text of the error it returns.
pub uninterp spec fn url_parse(input: Seq<char>) -> Result<UriView, Seq<char>>;

/// The outcome of parsing as a mathematical value.
pub open spec fn parsed_view(r: Result<Uri, String>) -> Result<UriView, Seq<char>> {
    match r {
        Ok(u) => Ok(u@),
        Err(m) => Err(m@),
    }
}

/// Parses `input` with `url::Url::parse`. On success the result holds what
/// `Url::scheme`, `Url::host_str` and `Url::path` return for the parsed URL;
/// on failure, the error as `Display` prints it. Nothing is claimed about
/// the outcome except that it depends on `input` alone.
#[verifier::external_body]
pub(crate) fn parse_url(input: &str) -> (r: Result<Uri, String>)
    ensures
        parsed_view(r) == url_parse(input@),
{
    match url::Url::parse(input) {
        Ok(u) => Ok(
            Uri {
                scheme: String::from(u.scheme()),
                host: u.host_str().map(String::from),
                path: String::from(u.path()),
            },
        ),
        Err(e) => Err(format!("{}", e)),
    }
}

/// The file that a `file` URI names: the host, if there is one, directly
/// followed by the path.
pub open spec fn file_path_of(u: UriView) -> Seq<char> {
    match u.host {
        Some(h) => h + u.path,
        None => u.path,
    }
}

/// Joins host and path of a URI into the path of a file. The caller makes
/// it absolute and canonical before opening it.
pub fn make_file_path(uri: &Uri) -> (r: String)
    ensures
        r@ == file_path_of(uri@),
{
    match &uri.host {
        Some(h) => {
            let mut s = h.clone();
            s.append(uri.path.as_str());
            s
        },
        None => uri.path.clone(),
    }
}

/// Where a plugin lies and what to read there.
#[derive(Debug, PartialEq, Eq)]
pub struct PluginLocation {
    /// The file of the shared library, as the URI gives it.
    pub file_path: String,
    /// The exported symbol that holds the declaration.
    pub symbol: String,
}

/// Mathematical value of a [`PluginLocation`].
pub struct PluginLocationView {
    pub file_path: Seq<char>,
    pub symbol: Seq<char>,
}

impl View for PluginLocation {
    type V = PluginLocationView;

    open spec fn view(&self) -> PluginLocationView {
        PluginLocationView { file_path: self.file_path@, symbol: self.symbol@ }
    }
}

/// The outcome of locating a plugin as a mathematical value.
pub open spec fn location_view(r: ZFResult<PluginLocation>) -> Result<
    PluginLocationView,
    ZFErrorView,
> {
    match r {
        Ok(l) => Ok(l@),
        Err(e) => Err(e@),
    }
}

/// The loader's rule on a parsed URI: a string that does not parse is a
/// `ParsingError` with the parser's message; a scheme other than `file` is
/// `Unimplemented`; a `file` URI gives the file to open.
pub open spec fn located(parsed: Result<UriView, Seq<char>>, symbol: Seq<char>) -> Result<
    PluginLocationView,
    ZFErrorView,
> {
    match parsed {
        Err(m) => Err(ZFErrorView::ParsingError(m)),
        Ok(u) => if u.scheme == "file"@ {
            Ok(PluginLocationView { file_path: file_path_of(u), symbol })
        } else {
            Err(ZFErrorView::Unimplemented)
        },
    }
}

/// Applies the loader's rule to the outcome of parsing a URI.
pub fn locate_plugin(parsed: Result<Uri, String>, symbol: &str) -> (r: ZFResult<PluginLocation>)
    ensures
        location_view(r) == located(parsed_view(parsed), symbol@),
{
    match parsed {
        Err(m) => Err(ZFError::ParsingError(m)),
        Ok(uri) => {
            if uri.scheme == String::from_str("file") {
                Ok(
                    PluginLocation {
                        file_path: make_file_path(&uri),
                        symbol: String::from_str(symbol),
                    },
                )
            } else {
                Err(ZFError::Unimplemented)
            }
        },
    }
}

/// Locates the library of an operator from its URI.
pub fn load_operator(path: &str) -> (r: ZFResult<PluginLocation>)
    ensures
        location_view(r) == located(url_parse(path@), OPERATOR_SYMBOL@),
{
    locate_plugin(parse_url(path), OPERATOR_SYMBOL)
}

/// Locates the library of a source from its URI.
pub fn load_source(path: &str) -> (r: ZFResult<PluginLocation>)
    ensures
        location_view(r) == located(url_parse(path@), SOURCE_SYMBOL@),
{
    locate_plugin(parse_url(path), SOURCE_SYMBOL)
}

/// Locates the library of a sink from its URI.
pub fn load_sink(path: &str) -> (r: ZFResult<PluginLocation>)
    ensures
        location_view(r) == located(url_parse(path@), SINK_SYMBOL@),
{
    locate_plugin(parse_url(path), SINK_SYMBOL)
}

/// The version tags that the runtime was built with.
#[derive(Debug, PartialEq, Eq)]
pub struct RuntimeVersions {
    pub rustc_version: String,
    pub core_version: String,
}

/// What the library of an operator declares: the versions it was built
/// against and the function that makes the operator.
pub struct OperatorDeclaration<F> {
    pub rustc_version: String,
    pub core_version: String,
    pub register: F,
}

/// What the library of a source declares.
pub struct SourceDeclaration<F> {
    pub rustc_version: String,
    pub core_version: String,
    pub register: F,
}

/// What the library of a sink declares.
pub struct SinkDeclaration<F> {
    pub rustc_version: String,
    pub core_version: String,
    pub register: F,
}

/// Both version tags of a declaration are those of the runtime, character
/// for character.
pub open spec fn versions_match(
    rustc_version: Seq<char>,
    core_version: Seq<char>,
    runtime: RuntimeVersions,
) -> bool {
    rustc_version == runtime.rustc_version@ && core_version == runtime.core_version@
}

/// What loading comes to: with matching versions, whatever `register`
/// returns, paired with the library; otherwise `VersionMismatch`, and
/// `register` is not called.
pub open spec fn loaded<L, T, F: FnOnce() -> ZFResult<T>>(
    library: L,
    matches: bool,
    register: F,
    r: ZFResult<(L, T)>,
) -> bool {
    if matches {
        match r {
            Ok((l, instance)) => l == library && register.ensures((), Ok(instance)),
            Err(e) => register.ensures((), Err(e)),
        }
    } else {
        r matches Err(e) && e@ == ZFErrorView::VersionMismatch
    }
}

/// The version gate. `register` is called, once, only if both version tags
/// are those of the runtime: it need not be callable otherwise.
pub fn load_lib<L, T, F: FnOnce() -> ZFResult<T>>(
    library: L,
    rustc_version: &String,
    core_version: &String,
    register: F,
    runtime: &RuntimeVersions,
) -> (r: ZFResult<(L, T)>)
    requires
        versions_match(rustc_version@, core_version@, *runtime) ==> register.requires(()),
    ensures
        loaded(library, versions_match(rustc_version@, core_version@, *runtime), register, r),
{
    if *rustc_version != runtime.rustc_version || *core_version != runtime.core_version {
        return Err(ZFError::VersionMismatch);
    }
    match register() {
        Ok(instance) => Ok((library, instance)),
        Err(e) => Err(e),
    }
}

/// Admits the operator that an opened library declares.
pub fn load_lib_operator<L, T, F: FnOnce() -> ZFResult<T>>(
    library: L,
    decl: OperatorDeclaration<F>,
    runtime: &RuntimeVersions,
) -> (r: ZFResult<(L, T)>)
    requires
        versions_match(decl.rustc_version@, decl.core_version@, *runtime)
            ==> decl.register.requires(()),
    ensures
        loaded(
            library,
            versions_match(decl.rustc_version@, decl.core_version@, *runtime),
            decl.register,
            r,
        ),
{
    load_lib(library, &decl.rustc_version, &decl.core_version, decl.register, runtime)
}

/// Admits the source that an opened library declares.
pub fn load_lib_source<L, T, F: FnOnce() -> ZFResult<T>>(
    library: L,
    decl: SourceDeclaration<F>,
    runtime: &RuntimeVersions,
) -> (r: ZFResult<(L, T)>)
    requires
        versions_match(decl.rustc_version@, decl.core_version@, *runtime)
            ==> decl.register.requires(()),
    ensures
        loaded(
            library,
            versions_match(decl.rustc_version@, decl.core_version@, *runtime),
            decl.register,
            r,
        ),
{
    load_lib(library, &decl.rustc_version, &decl.core_version, decl.register, runtime)
}

/// Admits the sink that an opened library declares.
pub fn load_lib_sink<L, T, F: FnOnce() -> ZFResult<T>>(
    library: L,
    decl: SinkDeclaration<F>,
    runtime: &RuntimeVersions,
) -> (r: ZFResult<(L, T)>)
    requires
        versions_match(decl.rustc_version@, decl.core_version@, *runtime)
            ==> decl.register.requires(()),
    ensures
        loaded(
            library,
            versions_match(decl.rustc_version@, decl.core_version@, *runtime),
            decl.register,
            r,
        ),
{
    load_lib(library, &decl.rustc_version, &decl.core_version, decl.register, runtime)
}

} // verus!
