//! Runners and their manager: what every kind of runner offers for wiring,
//! the supervisor's decision after each run of a body, and the manager that
//! holds the stop signal and, for a source, the recorder.

use vstd::prelude::*;
use crate::io::put_endpoint;
use crate::link::{
    link, EndpointView, LinkReceiver, LinkSender, LinkTable, LinkView, DEFAULT_LINK_CAPACITY,
};
use crate::logging::{
    logger_id, logger_id_of, resource_name, resource_name_of, LoggerView, ZenohLogger,
};
use crate::model::{ports_view, PortView, ZFPortDescriptor};
use crate::signal::StopSignal;
use crate::types::{
    InstanceContext, InstanceContextView, NodeId, ZFError, ZFErrorView, ZFResult,
};

verus! {

/// Which sides a runner has: a source only outputs, a sink only inputs, an
/// operator both, a connector one of the two.
#[derive(Clone, Copy, Debug, PartialEq, Eq, Structural)]
pub enum RunnerKind {
    Source,
    Operator,
    Sink,
    Connector,
}

/// Mathematical value of a runner, as far as wiring is concerned.
pub struct RunnerView {
    pub kind: RunnerKind,
    pub id: Seq<char>,
    pub inputs: Seq<PortView>,
    pub outputs: Seq<PortView>,
    pub input_links: Seq<EndpointView>,
    pub output_links: Seq<EndpointView>,
}

impl RunnerView {
    /// Whether receivers can be attached: to an operator, to a sink, and to a
    /// connector that declares an input.
    pub open spec fn takes_inputs(self) -> bool {
        match self.kind {
            RunnerKind::Source => false,
            RunnerKind::Operator => true,
            RunnerKind::Sink => true,
            RunnerKind::Connector => self.inputs.len() > 0,
        }
    }

    /// Whether senders can be attached: to a source, to an operator, and to a
    /// connector that declares an output.
    pub open spec fn gives_outputs(self) -> bool {
        match self.kind {
            RunnerKind::Source => true,
            RunnerKind::Operator => true,
            RunnerKind::Sink => false,
            RunnerKind::Connector => self.outputs.len() > 0,
        }
    }

    /// The runner once the receiver `e` is attached.
    pub open spec fn with_input(self, e: EndpointView) -> RunnerView {
        RunnerView { input_links: put_endpoint(self.input_links, e), ..self }
    }

    /// The runner once the sender `e` is attached.
    pub open spec fn with_output(self, e: EndpointView) -> RunnerView {
        RunnerView { output_links: self.output_links.push(e), ..self }
    }
}

/// What the manager needs of a runner, whatever its kind.
pub trait Runner {
    /// The runner as a mathematical value.
    spec fn runner_view(&self) -> RunnerView;

    /// The runner's own invariant.
    spec fn wf(&self) -> bool;

    fn get_kind(&self) -> (r: RunnerKind)
        ensures
            r == self.runner_view().kind,
    ;

    fn get_id(&self) -> (r: NodeId)
        ensures
            r@ == self.runner_view().id,
    ;

    /// The input ports, in declaration order.
    fn get_inputs(&self) -> (r: Vec<ZFPortDescriptor>)
        ensures
            ports_view(r@) == self.runner_view().inputs,
    ;

    /// The output ports, in declaration order.
    fn get_outputs(&self) -> (r: Vec<ZFPortDescriptor>)
        ensures
            ports_view(r@) == self.runner_view().outputs,
    ;

    /// Attaches a receiver to the input port it names, in place of the one
    /// that was there. A runner without input side refuses with `Unimplemented`.
    fn add_input(&mut self, input: LinkReceiver) -> (r: ZFResult<()>)
        requires
            old(self).wf(),
        ensures
            final(self).wf(),
            match r {
                Ok(_) => old(self).runner_view().takes_inputs() && final(self).runner_view() == old(
                    self,
                ).runner_view().with_input(input@),
                Err(e) => !old(self).runner_view().takes_inputs() && e@
                    == ZFErrorView::Unimplemented && final(self).runner_view() == old(
                    self,
                ).runner_view(),
            },
    ;

    /// Attaches a sender after those already on its output port. A runner
    /// without output side refuses with `Unimplemented`.
    fn add_output(&mut self, output: LinkSender) -> (r: ZFResult<()>)
        requires
            old(self).wf(),
        ensures
            final(self).wf(),
            match r {
                Ok(_) => old(self).runner_view().gives_outputs() && final(self).runner_view()
                    == old(self).runner_view().with_output(output@),
                Err(e) => !old(self).runner_view().gives_outputs() && e@
                    == ZFErrorView::Unimplemented && final(self).runner_view() == old(
                    self,
                ).runner_view(),
            },
    ;

    /// The receivers, one per wired input port.
    fn get_input_links(&self) -> (r: Vec<LinkReceiver>)
        ensures
            r@.map_values(|x: LinkReceiver| x@) == self.runner_view().input_links,
    ;

    /// The senders of all output ports, in the order in which they were attached.
    fn get_outputs_links(&self) -> (r: Vec<LinkSender>)
        ensures
            r@.map_values(|x: LinkSender| x@) == self.runner_view().output_links,
    ;
}

/// How a race between the stop signal and one run of the body ended.
#[derive(Debug, PartialEq, Eq)]
pub enum RaceOutcome {
    /// The stop signal won.
    Stopped,
    /// The body returned first, with this result.
    Finished(ZFResult<()>),
}

/// Mathematical value of a [`RaceOutcome`].
pub enum RaceOutcomeView {
    Stopped,
    Finished(Result<(), ZFErrorView>),
}

impl View for RaceOutcome {
    type V = RaceOutcomeView;

    open spec fn view(&self) -> RaceOutcomeView {
        match self {
            RaceOutcome::Stopped => RaceOutcomeView::Stopped,
            RaceOutcome::Finished(Ok(_)) => RaceOutcomeView::Finished(Ok(())),
            RaceOutcome::Finished(Err(e)) => RaceOutcomeView::Finished(Err(e@)),
        }
    }
}

/// What the supervisor does after a race.
#[derive(Debug, PartialEq, Eq)]
pub enum RunAction {
    /// Enter the body again, with the node's state as it is.
    RestartRun(Option<ZFError>),
    /// Leave the loop with success.
    Stop,
}

/// Mathematical value of a [`RunAction`].
pub enum RunActionView {
    RestartRun(Option<ZFErrorView>),
    Stop,
}

impl View for RunAction {
    type V = RunActionView;

    open spec fn view(&self) -> RunActionView {
        match self {
            RunAction::RestartRun(Some(e)) => RunActionView::RestartRun(Some(e@)),
            RunAction::RestartRun(None) => RunActionView::RestartRun(None),
            RunAction::Stop => RunActionView::Stop,
        }
    }
}

/// The supervisor's rule: only a body that failed is run again.
pub open spec fn supervise(outcome: RaceOutcomeView) -> RunActionView {
    match outcome {
        RaceOutcomeView::Stopped => RunActionView::Stop,
        RaceOutcomeView::Finished(Ok(_)) => RunActionView::Stop,
        RaceOutcomeView::Finished(Err(e)) => RunActionView::RestartRun(Some(e)),
    }
}

/// How many races the supervised loop runs when they end as `outcomes` says,
/// one after the other: it stops after the first that does not ask for a
/// restart. Each race enters the body at most once.
pub open spec fn races_run(outcomes: Seq<RaceOutcomeView>) -> nat
    decreases outcomes.len(),
{
    if outcomes.len() == 0 {
        0
    } else if supervise(outcomes[0]) is Stop {
        1
    } else {
        1 + races_run(outcomes.drop_first())
    }
}

/// Supervised restart: when the body fails `n` times and then succeeds, the
/// loop runs exactly `n + 1` races, so the body is entered `n + 1` times. No
/// action of the supervisor initializes the node again: its state is kept.
pub proof fn lemma_supervised_restart(outcomes: Seq<RaceOutcomeView>, n: nat)
    requires
        n < outcomes.len(),
        forall|i: int|
            0 <= i < n ==> (#[trigger] outcomes[i]) matches RaceOutcomeView::Finished(Err(_)),
        outcomes[n as int] == RaceOutcomeView::Finished(Ok(())),
    ensures
        races_run(outcomes) == n + 1,
        forall|i: int| 0 <= i < n ==> supervise(#[trigger] outcomes[i]) is RestartRun,
        supervise(outcomes[n as int]) is Stop,
    decreases n,
{
    if n > 0 {
        let rest = outcomes.drop_first();
        lemma_supervised_restart(rest, (n - 1) as nat);
    }
}

/// Stop dominance: the loop ends with the first race that the stop signal
/// wins, whatever the races after it would have been. No body is entered
/// once the signal has won.
pub proof fn lemma_stop_dominance(outcomes: Seq<RaceOutcomeView>, k: nat)
    requires
        k < outcomes.len(),
        outcomes[k as int] is Stopped,
    ensures
        races_run(outcomes) <= k + 1,
    decreases k,
{
    if k > 0 && !(supervise(outcomes[0]) is Stop) {
        let rest = outcomes.drop_first();
        lemma_stop_dominance(rest, (k - 1) as nat);
    }
}

/// Decides what follows a race between the stop signal and one run of the
/// body: a failed body is run again, anything else ends the loop.
pub fn run_stoppable(outcome: RaceOutcome) -> (r: RunAction)
    ensures
        r@ == supervise(outcome@),
{
    match outcome {
        RaceOutcome::Stopped => RunAction::Stop,
        RaceOutcome::Finished(Ok(_)) => RunAction::Stop,
        RaceOutcome::Finished(Err(e)) => RunAction::RestartRun(Some(e)),
    }
}

/// A runner with the context of the instance it belongs to, ready to be started.
pub struct NodeRunner<R: Runner> {
    pub inner: R,
    pub ctx: InstanceContext,
}

impl<R: Runner> NodeRunner<R> {
    pub fn new(inner: R, ctx: InstanceContext) -> (r: Self)
        ensures
            r.inner == inner,
            r.ctx == ctx,
    {
        Self { inner, ctx }
    }

    /// Puts the runner under a manager with a fresh stop signal. `handler` is
    /// the handle of the task that the caller spawned for the supervised
    /// loop. For a source, the recorder's tap is created in `table`.
    pub fn start<H>(self, handler: H, table: &mut LinkTable) -> (r: ZFResult<RunnerManager<R, H>>)
        requires
            self.inner.wf(),
            old(table).wf(),
        ensures
            final(table).wf(),
            manager_made(false, handler, self.inner, self.ctx@, old(table)@, final(table)@, r),
    {
        let signal = StopSignal::new();
        RunnerManager::try_new(signal, handler, self.inner, self.ctx, table)
    }
}

/// Mathematical value of a manager: the stop signals and what it manages.
pub struct ManagerView {
    pub stopped: bool,
    pub runner: RunnerView,
    pub ctx: InstanceContextView,
    pub logger: Option<LoggerView>,
    pub logger_stopped: Option<bool>,
}

/// Supervises one runner: holds its stop signal and the handle of its task,
/// and for a source the recorder with a stop signal of its own.
pub struct RunnerManager<R: Runner, H> {
    stopper: StopSignal,
    handler: H,
    runner: R,
    ctx: InstanceContext,
    logger: Option<ZenohLogger>,
    logger_stopper: Option<StopSignal>,
}

/// The recorder that a manager gives to the source `runner`, whose tap is
/// link number `tap` on the output port `port`.
pub open spec fn recorder_of(
    runner: RunnerView,
    ctx: InstanceContextView,
    port: Seq<char>,
    tap: nat,
) -> LoggerView {
    LoggerView {
        id: logger_id_of(ctx.flow_id, ctx.instance_id, runner.id, port),
        ctx,
        resource_name: resource_name_of(ctx.flow_id, ctx.instance_id, runner.id, port),
        node_id: runner.id,
        port_id: port,
        input: EndpointView { id: port, link: tap },
        recording: false,
    }
}

/// What making a manager for `runner` comes to.
///
/// A runner that is no source is taken as it is, without recorder. A source
/// gets a recorder on its last output port: a link of the default capacity is
/// added to the table, its sender is attached to the source and its receiver
/// goes to the recorder. A source without output port is refused with
/// `NodeNotFound`.
pub open spec fn manager_made<R: Runner, H>(
    stopped: bool,
    handler: H,
    runner: R,
    ctx: InstanceContextView,
    table_before: Seq<LinkView>,
    table_after: Seq<LinkView>,
    r: ZFResult<RunnerManager<R, H>>,
) -> bool {
    let rv = runner.runner_view();
    if rv.kind != RunnerKind::Source {
        &&& table_after == table_before
        &&& r matches Ok(m)
        &&& m.wf()
        &&& m.handler_spec() == handler
        &&& m@ == (ManagerView { stopped, runner: rv, ctx, logger: None, logger_stopped: None })
    } else if rv.outputs.len() == 0 {
        &&& table_after == table_before
        &&& r matches Err(e)
        &&& e@ == ZFErrorView::NodeNotFound(rv.id)
    } else {
        let port = rv.outputs.last().port_id;
        let tap = table_before.len();
        &&& table_after == table_before.push(
            LinkView::fresh(port, port, DEFAULT_LINK_CAPACITY as nat),
        )
        &&& r matches Ok(m)
        &&& m.wf()
        &&& m.handler_spec() == handler
        &&& m@ == (ManagerView {
            stopped,
            runner: rv.with_output(EndpointView { id: port, link: tap }),
            ctx,
            logger: Some(recorder_of(rv, ctx, port, tap)),
            logger_stopped: Some(false),
        })
    }
}

impl<R: Runner, H> View for RunnerManager<R, H> {
    type V = ManagerView;

    closed spec fn view(&self) -> ManagerView {
        ManagerView {
            stopped: self.stopper@,
            runner: self.runner.runner_view(),
            ctx: self.ctx@,
            logger: match self.logger {
                Some(l) => Some(l@),
                None => None,
            },
            logger_stopped: match self.logger_stopper {
                Some(s) => Some(s@),
                None => None,
            },
        }
    }
}

impl<R: Runner, H> RunnerManager<R, H> {
    /// The handle of the task.
    pub closed spec fn handler_spec(&self) -> H {
        self.handler
    }

    /// The shared signal that stops the runner.
    pub closed spec fn stopper_handle(&self) -> zenoh_sync::Signal {
        self.stopper.handle()
    }

    /// The shared signal that stops the recorder, if there is a recorder.
    pub closed spec fn logger_stopper_handle(&self) -> Option<zenoh_sync::Signal> {
        match self.logger_stopper {
            Some(s) => Some(s.handle()),
            None => None,
        }
    }

    /// The runner is well formed, and there is a recorder exactly when there
    /// is a signal to stop it.
    pub closed spec fn wf(&self) -> bool {
        &&& self.runner.wf()
        &&& self.logger is Some <==> self.logger_stopper is Some
    }

    pub fn try_new(
        stopper: StopSignal,
        handler: H,
        runner: R,
        ctx: InstanceContext,
        table: &mut LinkTable,
    ) -> (r: ZFResult<Self>)
        requires
            runner.wf(),
            old(table).wf(),
        ensures
            final(table).wf(),
            manager_made(stopper@, handler, runner, ctx@, old(table)@, final(table)@, r),
            r matches Ok(m) ==> m.stopper_handle() == stopper.handle(),
    {
        let mut runner = runner;
        if runner.get_kind() == RunnerKind::Source {
            let node_id = runner.get_id();
            let mut outputs = runner.get_outputs();
            let output_id = match outputs.pop() {
                Some(port) => port.port_id,
                None => {
                    return Err(ZFError::NodeNotFound(node_id));
                },
            };
            let z_resource_name = resource_name(&ctx, &node_id, &output_id);
            let recorder_id = logger_id(&ctx, &node_id, &output_id);
            let (tx, rx) = link(table, None, output_id.clone(), output_id.clone());
            let logger = ZenohLogger::try_new(
                recorder_id,
                ctx.clone(),
                z_resource_name,
                node_id,
                output_id,
                rx,
            )?;
            runner.add_output(tx)?;
            let logger_stopper = logger.start();
            return Ok(
                Self {
                    stopper,
                    handler,
                    runner,
                    ctx,
                    logger: Some(logger),
                    logger_stopper: Some(logger_stopper),
                },
            );
        }
        Ok(Self { stopper, handler, runner, ctx, logger: None, logger_stopper: None })
    }

    /// Asks the runner to stop: triggers the recorder's stop signal, if there
    /// is a recorder, then the runner's. Asking again changes nothing.
    pub fn kill(&mut self) -> (r: ZFResult<()>)
        requires
            old(self).wf(),
        ensures
            final(self).wf(),
            r is Ok,
            final(self).handler_spec() == old(self).handler_spec(),
            final(self).stopper_handle() == old(self).stopper_handle(),
            final(self).logger_stopper_handle() == old(self).logger_stopper_handle(),
            final(self)@ == (ManagerView {
                stopped: true,
                logger_stopped: if old(self)@.logger_stopped is Some {
                    Some(true)
                } else {
                    None
                },
                ..old(self)@
            }),
    {
        match &mut self.logger_stopper {
            Some(ls) => {
                ls.trigger();
            },
            None => {},
        }
        self.stopper.trigger();
        Ok(())
    }

    /// The handle of the task that runs the supervised loop.
    pub fn get_handler(&self) -> (r: &H)
        ensures
            *r == self.handler_spec(),
    {
        &self.handler
    }

    /// Turns the recorder on and returns the key it publishes under. Without
    /// a recorder nothing happens and the key is empty.
    pub fn start_recording(&mut self) -> (r: ZFResult<String>)
        requires
            old(self).wf(),
        ensures
            final(self).wf(),
            final(self).handler_spec() == old(self).handler_spec(),
            final(self).stopper_handle() == old(self).stopper_handle(),
            final(self).logger_stopper_handle() == old(self).logger_stopper_handle(),
            r matches Ok(key) && key@ == match old(self)@.logger {
                Some(l) => l.resource_name,
                None => Seq::<char>::empty(),
            },
            final(self)@ == (ManagerView {
                logger: match old(self)@.logger {
                    Some(l) => Some(LoggerView { recording: true, ..l }),
                    None => None,
                },
                ..old(self)@
            }),
    {
        match &mut self.logger {
            Some(logger) => logger.start_recording(),
            None => Ok(String::new()),
        }
    }

    /// Turns the recorder off and returns the key it published under. Without
    /// a recorder nothing happens and the key is empty.
    pub fn stop_recording(&mut self) -> (r: ZFResult<String>)
        requires
            old(self).wf(),
        ensures
            final(self).wf(),
            final(self).handler_spec() == old(self).handler_spec(),
            final(self).stopper_handle() == old(self).stopper_handle(),
            final(self).logger_stopper_handle() == old(self).logger_stopper_handle(),
            r matches Ok(key) && key@ == match old(self)@.logger {
                Some(l) => l.resource_name,
                None => Seq::<char>::empty(),
            },
            final(self)@ == (ManagerView {
                logger: match old(self)@.logger {
                    Some(l) => Some(LoggerView { recording: false, ..l }),
                    None => None,
                },
                ..old(self)@
            }),
    {
        match &mut self.logger {
            Some(logger) => logger.stop_recording(),
            None => Ok(String::new()),
        }
    }

    /// The context of the instance that the runner belongs to.
    pub fn get_context(&self) -> (r: &InstanceContext)
        ensures
            r@ == self@.ctx,
    {
        &self.ctx
    }

    /// Whether the runner was asked to stop.
    pub fn is_stopped(&self) -> (r: bool)
        ensures
            r == self@.stopped,
    {
        self.stopper.is_triggered()
    }

    /// A handle on the stop signal of the runner, for its task to wait on:
    /// the very signal that [`RunnerManager::kill`] triggers.
    pub fn get_stopper(&self) -> (r: zenoh_sync::Signal)
        ensures
            r == self.stopper_handle(),
    {
        self.stopper.observer()
    }

    /// A handle on the stop signal of the recorder, if the runner is a source:
    /// the very signal that [`RunnerManager::kill`] triggers first.
    pub fn get_logger_stopper(&self) -> (r: Option<zenoh_sync::Signal>)
        ensures
            r == self.logger_stopper_handle(),
            r is Some <==> self@.logger_stopped is Some,
    {
        match &self.logger_stopper {
            Some(signal) => Some(signal.observer()),
            None => None,
        }
    }

    /// The runner under management.
    pub fn get_runner(&self) -> (r: &R)
        ensures
            r.runner_view() == self@.runner,
            self.wf() ==> r.wf(),
    {
        &self.runner
    }

    /// The recorder, if the runner is a source.
    pub fn get_logger(&self) -> (r: Option<&ZenohLogger>)
        ensures
            match r {
                Some(l) => self@.logger == Some(l@),
                None => self@.logger is None,
            },
    {
        self.logger.as_ref()
    }
}

} // verus!
