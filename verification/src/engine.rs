//! The input-rule engine: gathers one message per input port into tokens,
//! asks the node's input rule after each arrival, and says when the node
//! fires.
//!
//! The engine never waits. The caller awaits the ports listed by
//! [`InputRuleEngine::awaited`], reports what arrived, and acts on the
//! [`EngineStep`] it gets back.

use vstd::prelude::*;
use crate::message::{DataMessage, Message, MessageView};
use crate::model::{ports_view, unique_port_ids, ZFPortDescriptor};
use crate::token::{
    all_ready, default_input_rule, distinct_ports, emptied, has_port, inputs_view,
    lemma_ready_inputs_all, lemma_ready_inputs_exact, lemma_slot_of, ready_inputs, slot_of,
    token_ports, InputRule, Token, TokenSet, TokenView,
};
use crate::types::{InstanceContext, PortId, ZFResult};

verus! {

/// What the caller does next.
#[derive(Debug, PartialEq, Eq)]
pub enum EngineStep {
    /// Keep awaiting the ports that [`InputRuleEngine::awaited`] lists.
    Await,
    /// Invoke the node's body, once, on these inputs. They have left the tokens.
    Fire(Vec<(PortId, DataMessage)>),
    /// No port is left to await in this round and the node does not fire:
    /// hand control back, then start over with [`InputRuleEngine::reset`].
    Yield,
}

/// Mathematical value of an [`EngineStep`].
pub enum EngineStepView {
    Await,
    Fire(Seq<(Seq<char>, MessageView)>),
    Yield,
}

impl View for EngineStep {
    type V = EngineStepView;

    open spec fn view(&self) -> EngineStepView {
        match self {
            EngineStep::Await => EngineStepView::Await,
            EngineStep::Fire(inputs) => EngineStepView::Fire(inputs_view(inputs@)),
            EngineStep::Yield => EngineStepView::Yield,
        }
    }
}

/// Mathematical value of the engine: the tokens, and for each port whether
/// its receiver failed in this round.
pub struct EngineView {
    pub tokens: Seq<TokenView>,
    pub closed: Seq<bool>,
}

impl EngineView {
    pub open spec fn wf(self) -> bool {
        &&& distinct_ports(self.tokens)
        &&& self.closed.len() == self.tokens.len()
    }

    /// Port `i` is awaited: its token is empty and its receiver has not
    /// failed in this round.
    pub open spec fn awaits(self, i: int) -> bool {
        &&& 0 <= i < self.tokens.len()
        &&& self.tokens[i].token is None
        &&& !self.closed[i]
    }

    /// Some port is awaited.
    pub open spec fn any_awaited(self) -> bool {
        exists|i: int| self.awaits(i)
    }

    /// The awaited ports among the first `n`, in port order.
    pub open spec fn awaited_upto(self, n: nat) -> Seq<Seq<char>> {
        Seq::new(n, |i: int| i).filter(|i: int| self.awaits(i)).map_values(
            |i: int| self.tokens[i].port,
        )
    }

    /// The ports to await, in port order.
    pub open spec fn awaited_ports(self) -> Seq<Seq<char>> {
        self.awaited_upto(self.tokens.len())
    }

    /// The start of a round: every token empty, every port awaited.
    pub open spec fn restarted(self) -> EngineView {
        EngineView {
            tokens: emptied(self.tokens),
            closed: Seq::new(self.tokens.len(), |i: int| false),
        }
    }

    /// The engine once `m` has arrived on `port`. A data message for a port of
    /// the node becomes that port's token; anything else is dropped.
    pub open spec fn offered(self, port: Seq<char>, m: MessageView) -> EngineView {
        if m is Data && has_port(self.tokens, port) {
            EngineView {
                tokens: self.tokens.update(
                    slot_of(self.tokens, port),
                    TokenView { port, token: Some(m) },
                ),
                closed: self.closed,
            }
        } else {
            self
        }
    }

    /// The engine once the receiver of `port` has failed.
    pub open spec fn dropped(self, port: Seq<char>) -> EngineView {
        if has_port(self.tokens, port) {
            EngineView {
                tokens: self.tokens,
                closed: self.closed.update(slot_of(self.tokens, port), true),
            }
        } else {
            self
        }
    }

    /// What to do when the node does not fire.
    pub open spec fn idle_step(self) -> EngineStepView {
        if self.any_awaited() {
            EngineStepView::Await
        } else {
            EngineStepView::Yield
        }
    }

    /// The engine and the step after the input rule has given its verdict.
    pub open spec fn concluded(self, fire: bool) -> (EngineView, EngineStepView) {
        if fire {
            (self.restarted(), EngineStepView::Fire(ready_inputs(self.tokens)))
        } else {
            (self, self.idle_step())
        }
    }
}

/// Whether an input rule's verdict makes the node fire: only `Ok(true)` does.
pub open spec fn fires(verdict: ZFResult<bool>) -> bool {
    verdict matches Ok(fire) && fire
}

/// `end` and `step` are what the engine `start` comes to when the input
/// rule, asked on the tokens of `start`, leaves `tokens` and says `fire`.
pub open spec fn rule_outcome(
    start: EngineView,
    fire: bool,
    tokens: Seq<TokenView>,
    end: EngineView,
    step: EngineStepView,
) -> bool {
    &&& distinct_ports(tokens)
    &&& token_ports(tokens) == token_ports(start.tokens)
    &&& (end, step) == (EngineView { tokens, closed: start.closed }).concluded(fire)
}

/// The awaited ports among the first `n + 1` are those among the first `n`,
/// followed by port `n` if it is awaited.
proof fn lemma_awaited_upto_step(v: EngineView, n: nat)
    ensures
        v.awaited_upto(n + 1) == if v.awaits(n as int) {
            v.awaited_upto(n).push(v.tokens[n as int].port)
        } else {
            v.awaited_upto(n)
        },
        v.awaited_upto(0) == Seq::<Seq<char>>::empty(),
{
    let upto = Seq::new(n + 1, |i: int| i);
    reveal_with_fuel(Seq::filter, 2);
    assert(upto.drop_last() =~= Seq::new(n, |i: int| i));
}

/// Firing atomicity: when the input rule says to fire, the step carries
/// every waiting message once (one entry per ready token, no port twice) and
/// nothing else, and the firing leaves no token behind: the same messages
/// cannot be consumed by a second firing.
pub proof fn lemma_firing_atomicity(v: EngineView)
    requires
        v.wf(),
    ensures
        v.concluded(true).1 == EngineStepView::Fire(ready_inputs(v.tokens)),
        v.concluded(true).0.wf(),
        token_ports(v.concluded(true).0.tokens) == token_ports(v.tokens),
        forall|i: int|
            0 <= i < v.tokens.len() ==> (#[trigger] v.concluded(true).0.tokens[i]).token is None,
        ready_inputs(v.concluded(true).0.tokens) == Seq::<(Seq<char>, MessageView)>::empty(),
        forall|k: int|
            0 <= k < ready_inputs(v.tokens).len() ==> exists|i: int|
                0 <= i < v.tokens.len() && #[trigger] v.tokens[i] == (TokenView {
                    port: (#[trigger] ready_inputs(v.tokens)[k]).0,
                    token: Some(ready_inputs(v.tokens)[k].1),
                }),
        forall|i: int|
            0 <= i < v.tokens.len() && (#[trigger] v.tokens[i]).token is Some ==> exists|k: int|
                0 <= k < ready_inputs(v.tokens).len() && #[trigger] ready_inputs(v.tokens)[k] == (
                    v.tokens[i].port,
                    v.tokens[i].token->0,
                ),
        forall|a: int, b: int|
            0 <= a < b < ready_inputs(v.tokens).len() ==> (#[trigger] ready_inputs(
                v.tokens,
            )[a]).0 != (#[trigger] ready_inputs(v.tokens)[b]).0,
{
    lemma_ready_inputs_exact(v.tokens);
    // After the firing no slot is ready, so nothing is left to consume.
    let end = v.concluded(true).0;
    lemma_ready_inputs_exact(end.tokens);
    if ready_inputs(end.tokens).len() > 0 {
        let i = choose|i: int|
            0 <= i < end.tokens.len() && #[trigger] end.tokens[i] == (TokenView {
                port: ready_inputs(end.tokens)[0].0,
                token: Some(ready_inputs(end.tokens)[0].1),
            });
        assert(end.tokens[i].token is None);
    }
}

/// Every awaited port among the first `n` is the port of an awaited slot.
proof fn lemma_awaited_upto_sound(v: EngineView, n: nat, k: int)
    requires
        n <= v.tokens.len(),
        0 <= k < v.awaited_upto(n).len(),
    ensures
        exists|i: int|
            0 <= i < n && v.awaits(i) && (#[trigger] v.tokens[i]).port == v.awaited_upto(n)[k],
    decreases n,
{
    if n > 0 {
        let m = (n - 1) as nat;
        lemma_awaited_upto_step(v, m);
        if k < v.awaited_upto(m).len() {
            lemma_awaited_upto_sound(v, m, k);
            let i = choose|i: int|
                0 <= i < m && v.awaits(i) && (#[trigger] v.tokens[i]).port == v.awaited_upto(m)[k];
            assert(v.tokens[i].port == v.awaited_upto(n)[k]);
        } else {
            assert(v.tokens[m as int].port == v.awaited_upto(n)[k]);
        }
    }
}

/// Input-rule synchrony, first half: a port that holds a token is not
/// awaited. So between two firings at most one message is taken from each
/// port, and what else arrives on it waits in its link, in order.
pub proof fn lemma_ready_port_is_not_awaited(v: EngineView, i: int)
    requires
        v.wf(),
        0 <= i < v.tokens.len(),
        v.tokens[i].token is Some,
    ensures
        !v.awaited_ports().contains(v.tokens[i].port),
{
    if v.awaited_ports().contains(v.tokens[i].port) {
        let k = choose|k: int|
            0 <= k < v.awaited_ports().len() && v.awaited_ports()[k] == v.tokens[i].port;
        lemma_awaited_upto_sound(v, v.tokens.len(), k);
        let j = choose|j: int|
            0 <= j < v.tokens.len() && v.awaits(j) && (#[trigger] v.tokens[j]).port
                == v.awaited_ports()[k];
        // Slot `j` is empty and slot `i` is not, yet they bear the same port.
        assert(j != i);
        assert(v.tokens[j].port == v.tokens[i].port);
    }
}

/// Input-rule synchrony, second half: under the default rule the node fires
/// exactly when every port holds a token, and the firing carries one message
/// from every port, in the order of the ports.
pub proof fn lemma_default_rule_synchrony(v: EngineView)
    requires
        v.wf(),
    ensures
        v.concluded(all_ready(v.tokens)).1 is Fire <==> all_ready(v.tokens),
        all_ready(v.tokens) ==> v.concluded(all_ready(v.tokens)).1 == EngineStepView::Fire(
            v.tokens.map_values(|t: TokenView| (t.port, t.token->0)),
        ),
{
    if all_ready(v.tokens) {
        lemma_ready_inputs_all(v.tokens);
    }
}

/// The firing discipline of one operator or sink.
pub struct InputRuleEngine {
    tokens: TokenSet,
    closed: Vec<bool>,
}

impl View for InputRuleEngine {
    type V = EngineView;

    closed spec fn view(&self) -> EngineView {
        EngineView { tokens: self.tokens@, closed: self.closed@ }
    }
}

fn all_open(n: usize) -> (r: Vec<bool>)
    ensures
        r@ == Seq::new(n as nat, |i: int| false),
{
    let mut r: Vec<bool> = Vec::new();
    let mut i: usize = 0;
    while i < n
        invariant
            i <= n,
            r@ == Seq::new(i as nat, |k: int| false),
        decreases n - i,
    {
        r.push(false);
        i += 1;
    }
    r
}

impl InputRuleEngine {
    pub open spec fn wf(&self) -> bool {
        self@.wf()
    }

    /// An engine for a node with these inputs, at the start of a round.
    pub fn new(inputs: &Vec<ZFPortDescriptor>) -> (r: Self)
        requires
            unique_port_ids(ports_view(inputs@)),
        ensures
            r.wf(),
            r@.tokens.len() == inputs@.len(),
            forall|i: int|
                0 <= i < inputs@.len() ==> #[trigger] r@.tokens[i] == (TokenView {
                    port: inputs@[i].port_id@,
                    token: None,
                }),
            r@.closed == Seq::new(inputs@.len(), |i: int| false),
    {
        let tokens = TokenSet::new(inputs);
        let closed = all_open(inputs.len());
        InputRuleEngine { tokens, closed }
    }

    /// The tokens as they stand.
    pub fn tokens(&self) -> (r: &TokenSet)
        ensures
            r@ == self@.tokens,
    {
        &self.tokens
    }

    /// Starts a round over: every token empty, every port awaited.
    pub fn reset(&mut self)
        requires
            old(self).wf(),
        ensures
            final(self).wf(),
            final(self)@ == old(self)@.restarted(),
    {
        let _ = self.tokens.take_ready();
        self.closed = all_open(self.tokens.len());
    }

    /// The ports whose receivers the caller awaits now, in port order.
    pub fn awaited(&self) -> (r: Vec<PortId>)
        requires
            self.wf(),
        ensures
            r@.map_values(|p: PortId| p@) == self@.awaited_ports(),
    {
        let mut out: Vec<PortId> = Vec::new();
        let n = self.tokens.len();
        let mut i: usize = 0;
        while i < n
            invariant
                self.wf(),
                n == self@.tokens.len(),
                i <= n,
                out@.map_values(|p: PortId| p@) == self@.awaited_upto(i as nat),
            decreases n - i,
        {
            proof {
                lemma_awaited_upto_step(self@, i as nat);
            }
            if !self.tokens.is_ready(i) && !self.closed[i] {
                match self.tokens.port(i) {
                    Some(port) => {
                        out.push(port);
                    },
                    None => {},
                }
            }
            i += 1;
        }
        out
    }

    /// The step to take when the node does not fire.
    pub fn idle(&self) -> (r: EngineStep)
        requires
            self.wf(),
        ensures
            r@ == self@.idle_step(),
    {
        let n = self.tokens.len();
        let mut i: usize = 0;
        while i < n
            invariant
                self.wf(),
                n == self@.tokens.len(),
                i <= n,
                forall|k: int| 0 <= k < i ==> !self@.awaits(k),
            decreases n - i,
        {
            if !self.tokens.is_ready(i) && !self.closed[i] {
                assert(self@.awaits(i as int));
                return EngineStep::Await;
            }
            i += 1;
        }
        EngineStep::Yield
    }

    /// Takes in what arrived on `port`. A data message for a port of the node
    /// becomes that port's token, replacing one that was waiting there; a
    /// control message, or a message for a port that the node does not have,
    /// is dropped. Returns whether a token was set.
    pub fn offer(&mut self, port: &PortId, msg: Message) -> (r: bool)
        requires
            old(self).wf(),
        ensures
            final(self).wf(),
            r == (msg@ is Data && has_port(old(self)@.tokens, port@)),
            final(self)@ == old(self)@.offered(port@, msg@),
            token_ports(final(self)@.tokens) == token_ports(old(self)@.tokens),
    {
        match msg {
            Message::Control(_) => false,
            Message::Data(data) => {
                match self.tokens.position(port) {
                    None => false,
                    Some(i) => {
                        proof {
                            lemma_slot_of(self@.tokens, i as int);
                        }
                        let _ = self.tokens.set(i, Token::Ready(data));
                        true
                    },
                }
            },
        }
    }

    /// Ends an arrival with the verdict of the input rule. On `Ok(true)` the
    /// node fires: every waiting message is consumed into the inputs of the
    /// body, and a new round starts. On `Ok(false)` and on an error the
    /// tokens stay as they are.
    pub fn conclude(&mut self, verdict: ZFResult<bool>) -> (r: EngineStep)
        requires
            old(self).wf(),
        ensures
            final(self).wf(),
            (final(self)@, r@) == old(self)@.concluded(fires(verdict)),
    {
        match verdict {
            Ok(true) => {
                let inputs = self.tokens.take_ready();
                self.closed = all_open(self.tokens.len());
                EngineStep::Fire(inputs)
            },
            _ => self.idle(),
        }
    }

    /// One arrival under the node's own input rule: sets the token, asks the
    /// rule, and concludes with its verdict. A message that sets no token
    /// changes nothing and the rule is not asked.
    pub fn on_message<R: InputRule>(
        &mut self,
        rule: &R,
        ctx: &InstanceContext,
        state: &mut R::State,
        port: &PortId,
        msg: Message,
    ) -> (r: EngineStep)
        requires
            old(self).wf(),
        ensures
            final(self).wf(),
            !(msg@ is Data && has_port(old(self)@.tokens, port@)) ==> final(self)@ == old(self)@
                && r@ == old(self)@.idle_step(),
            msg@ is Data && has_port(old(self)@.tokens, port@) ==> exists|
                fire: bool,
                tokens: Seq<TokenView>,
            |
                rule_outcome(old(self)@.offered(port@, msg@), fire, tokens, final(self)@, r@),
    {
        if !self.offer(port, msg) {
            return self.idle();
        }
        let ghost offered = self@;
        let verdict = rule.input_rule(ctx, state, &mut self.tokens);
        let ghost tokens = self@.tokens;
        proof {
            assert(self@.tokens.len() == token_ports(self@.tokens).len());
        }
        let r = self.conclude(verdict);
        proof {
            assert(rule_outcome(offered, fires(verdict), tokens, self@, r@));
        }
        r
    }

    /// One arrival under the default input rule: the node fires exactly when
    /// the arrival leaves every token ready.
    pub fn on_message_default(&mut self, port: &PortId, msg: Message) -> (r: EngineStep)
        requires
            old(self).wf(),
        ensures
            final(self).wf(),
            !(msg@ is Data && has_port(old(self)@.tokens, port@)) ==> final(self)@ == old(self)@
                && r@ == old(self)@.idle_step(),
            msg@ is Data && has_port(old(self)@.tokens, port@) ==> (final(self)@, r@) == old(
                self,
            )@.offered(port@, msg@).concluded(all_ready(old(self)@.offered(port@, msg@).tokens)),
    {
        if !self.offer(port, msg) {
            return self.idle();
        }
        let mut unit = ();
        let verdict = default_input_rule(&mut unit, &mut self.tokens);
        self.conclude(verdict)
    }

    /// The receiver of `port` failed: the port leaves the await set for this
    /// round. The engine goes on with the others, and yields if none is left.
    pub fn on_receiver_error(&mut self, port: &PortId) -> (r: EngineStep)
        requires
            old(self).wf(),
        ensures
            final(self).wf(),
            final(self)@ == old(self)@.dropped(port@),
            r@ == final(self)@.idle_step(),
    {
        match self.tokens.position(port) {
            None => {},
            Some(i) => {
                self.closed.set(i, true);
            },
        }
        self.idle()
    }
}

} // verus!
