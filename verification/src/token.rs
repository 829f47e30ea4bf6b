//! Tokens: one slot per input port, holding at most one message that waits
//! for the node to fire. Input rules decide over them.

use vstd::prelude::*;
use crate::message::{DataMessage, MessageView};
use crate::model::{ports_view, unique_port_ids, ZFPortDescriptor};
use crate::types::{InstanceContext, PortId, ZFResult};

verus! {

/// The state of one input port between two firings.
#[derive(Debug, PartialEq, Eq)]
pub enum Token {
    /// Nothing has arrived since the last firing.
    Empty,
    /// A message has arrived and waits to be consumed.
    Ready(DataMessage),
}

/// Mathematical value of a token with its port: `None` for an empty slot.
pub struct TokenView {
    pub port: Seq<char>,
    pub token: Option<MessageView>,
}

struct TokenSlot {
    port: PortId,
    token: Token,
}

impl View for Token {
    type V = Option<MessageView>;

    open spec fn view(&self) -> Option<MessageView> {
        match self {
            Token::Empty => None,
            Token::Ready(d) => Some(d@),
        }
    }
}

impl View for TokenSlot {
    type V = TokenView;

    closed spec fn view(&self) -> TokenView {
        TokenView { port: self.port@, token: self.token@ }
    }
}

/// The ports of a token set, in order.
pub open spec fn token_ports(s: Seq<TokenView>) -> Seq<Seq<char>> {
    s.map_values(|t: TokenView| t.port)
}

/// No port has two slots.
pub open spec fn distinct_ports(s: Seq<TokenView>) -> bool {
    forall|i: int, j: int| 0 <= i < j < s.len() ==> (#[trigger] s[i]).port != (#[trigger] s[j]).port
}

/// The node has an input port named `port`.
pub open spec fn has_port(s: Seq<TokenView>, port: Seq<char>) -> bool {
    exists|i: int| 0 <= i < s.len() && (#[trigger] s[i]).port == port
}

/// Position of the slot of `port`, for a port that the node has.
pub open spec fn slot_of(s: Seq<TokenView>, port: Seq<char>) -> int {
    choose|i: int| 0 <= i < s.len() && (#[trigger] s[i]).port == port
}

/// With distinct ports, the slot of a port is the only one that bears its name.
pub proof fn lemma_slot_of(s: Seq<TokenView>, i: int)
    requires
        distinct_ports(s),
        0 <= i < s.len(),
    ensures
        has_port(s, s[i].port),
        slot_of(s, s[i].port) == i,
{
    // The chosen slot bears the port of slot `i`; distinctness makes it slot `i`.
    let j = slot_of(s, s[i].port);
    assert(s[j].port == s[i].port);
}

/// Every slot holds a message.
pub open spec fn all_ready(s: Seq<TokenView>) -> bool {
    forall|i: int| 0 <= i < s.len() ==> (#[trigger] s[i]).token is Some
}

/// The same slots, all empty.
pub open spec fn emptied(s: Seq<TokenView>) -> Seq<TokenView> {
    s.map_values(|t: TokenView| TokenView { port: t.port, token: None })
}

/// What a firing consumes: the message of every ready slot with its port, in
/// the order of the ports.
pub open spec fn ready_inputs(s: Seq<TokenView>) -> Seq<(Seq<char>, MessageView)> {
    s.filter(|t: TokenView| t.token is Some).map_values(|t: TokenView| (t.port, t.token->0))
}

/// The inputs handed to a node's body, as mathematical values.
pub open spec fn inputs_view(inputs: Seq<(PortId, DataMessage)>) -> Seq<(Seq<char>, MessageView)> {
    inputs.map_values(|p: (PortId, DataMessage)| (p.0@, p.1@))
}

/// Adding a slot at the end adds its message to the inputs if it has one.
proof fn lemma_ready_inputs_push(s: Seq<TokenView>, t: TokenView)
    ensures
        ready_inputs(s.push(t)) == if t.token is Some {
            ready_inputs(s).push((t.port, t.token->0))
        } else {
            ready_inputs(s)
        },
{
    reveal_with_fuel(Seq::filter, 2);
    assert(s.push(t).drop_last() =~= s);
}

/// What a firing consumes is exactly what waits: every entry of the inputs
/// is the message of a ready slot, every ready slot has its entry, and no
/// port occurs twice.
pub proof fn lemma_ready_inputs_exact(s: Seq<TokenView>)
    requires
        distinct_ports(s),
    ensures
        ready_inputs(s).len() <= s.len(),
        forall|k: int|
            0 <= k < ready_inputs(s).len() ==> exists|i: int|
                0 <= i < s.len() && #[trigger] s[i] == (TokenView {
                    port: (#[trigger] ready_inputs(s)[k]).0,
                    token: Some(ready_inputs(s)[k].1),
                }),
        forall|i: int|
            0 <= i < s.len() && (#[trigger] s[i]).token is Some ==> exists|k: int|
                0 <= k < ready_inputs(s).len() && #[trigger] ready_inputs(s)[k] == (
                    s[i].port,
                    s[i].token->0,
                ),
        forall|a: int, b: int|
            0 <= a < b < ready_inputs(s).len() ==> (#[trigger] ready_inputs(s)[a]).0 != (
            #[trigger] ready_inputs(s)[b]).0,
    decreases s.len(),
{
    if s.len() > 0 {
        let front = s.drop_last();
        let t = s.last();
        assert(front.push(t) =~= s);
        lemma_ready_inputs_push(front, t);
        lemma_ready_inputs_exact(front);
        let ri = ready_inputs(s);
        let rf = ready_inputs(front);
        assert forall|i: int| 0 <= i < s.len() && (#[trigger] s[i]).token is Some implies exists|
            k: int,
        |
            0 <= k < ri.len() && #[trigger] ri[k] == (s[i].port, s[i].token->0) by {
            if i < front.len() {
                let k = choose|k: int|
                    0 <= k < rf.len() && #[trigger] rf[k] == (front[i].port, front[i].token->0);
                assert(ri[k] == rf[k]);
            } else {
                assert(ri[ri.len() - 1] == (t.port, t.token->0));
            }
        }
    }
}

/// When every slot is ready, a firing consumes one message from every port,
/// in the order of the ports.
pub proof fn lemma_ready_inputs_all(s: Seq<TokenView>)
    requires
        all_ready(s),
    ensures
        ready_inputs(s) == s.map_values(|t: TokenView| (t.port, t.token->0)),
    decreases s.len(),
{
    if s.len() > 0 {
        let front = s.drop_last();
        assert(front.push(s.last()) =~= s);
        lemma_ready_inputs_push(front, s.last());
        lemma_ready_inputs_all(front);
    }
}

/// The tokens of one node: one slot per input port, in the order in which the
/// node declares its inputs.
pub struct TokenSet {
    slots: Vec<TokenSlot>,
}

impl View for TokenSet {
    type V = Seq<TokenView>;

    closed spec fn view(&self) -> Seq<TokenView> {
        self.slots@.map_values(|s: TokenSlot| s@)
    }
}

impl TokenSet {
    pub open spec fn wf(&self) -> bool {
        distinct_ports(self@)
    }

    /// One empty slot per port of `inputs`.
    pub fn new(inputs: &Vec<ZFPortDescriptor>) -> (r: Self)
        requires
            unique_port_ids(ports_view(inputs@)),
        ensures
            r.wf(),
            r@.len() == inputs@.len(),
            forall|i: int|
                0 <= i < inputs@.len() ==> #[trigger] r@[i] == (TokenView {
                    port: inputs@[i].port_id@,
                    token: None,
                }),
    {
        let mut slots: Vec<TokenSlot> = Vec::new();
        let n = inputs.len();
        let mut i: usize = 0;
        while i < n
            invariant
                n == inputs.len(),
                i <= n,
                slots.len() == i,
                forall|k: int|
                    0 <= k < i ==> #[trigger] slots[k]@ == (TokenView {
                        port: inputs@[k].port_id@,
                        token: None,
                    }),
            decreases n - i,
        {
            slots.push(TokenSlot { port: inputs[i].port_id.clone(), token: Token::Empty });
            i += 1;
        }
        let r = TokenSet { slots };
        assert forall|a: int, b: int| 0 <= a < b < r@.len() implies (#[trigger] r@[a]).port != (
        #[trigger] r@[b]).port by {
            assert(ports_view(inputs@)[a].port_id != ports_view(inputs@)[b].port_id);
        }
        r
    }

    /// Number of slots.
    pub fn len(&self) -> (n: usize)
        ensures
            n == self@.len(),
    {
        self.slots.len()
    }

    /// Position of the slot of `port`, if the node has that input.
    pub fn position(&self, port: &PortId) -> (r: Option<usize>)
        ensures
            match r {
                Some(i) => i < self@.len() && self@[i as int].port == port@,
                None => forall|k: int| 0 <= k < self@.len() ==> (#[trigger] self@[k]).port != port@,
            },
    {
        let n = self.slots.len();
        let mut i: usize = 0;
        while i < n
            invariant
                n == self.slots.len(),
                i <= n,
                forall|k: int| 0 <= k < i ==> (#[trigger] self@[k]).port != port@,
            decreases n - i,
        {
            if self.slots[i].port == *port {
                return Some(i);
            }
            i += 1;
        }
        None
    }

    /// The port of slot `i`, if there is such a slot.
    pub fn port(&self, i: usize) -> (r: Option<PortId>)
        ensures
            match r {
                Some(p) => i < self@.len() && p@ == self@[i as int].port,
                None => i >= self@.len(),
            },
    {
        if i < self.slots.len() {
            Some(self.slots[i].port.clone())
        } else {
            None
        }
    }

    /// Whether there is a slot `i` and it holds a message.
    pub fn is_ready(&self, i: usize) -> (r: bool)
        ensures
            r == (i < self@.len() && self@[i as int].token is Some),
    {
        if i < self.slots.len() {
            match &self.slots[i].token {
                Token::Empty => false,
                Token::Ready(_) => true,
            }
        } else {
            false
        }
    }

    /// The message waiting in slot `i`, if there is such a slot and it holds one.
    pub fn peek(&self, i: usize) -> (r: Option<&DataMessage>)
        ensures
            match r {
                Some(d) => i < self@.len() && self@[i as int].token == Some(d@),
                None => i >= self@.len() || self@[i as int].token is None,
            },
    {
        if i < self.slots.len() {
            match &self.slots[i].token {
                Token::Empty => None,
                Token::Ready(d) => Some(d),
            }
        } else {
            None
        }
    }

    /// Puts `token` into slot `i`, replacing what was there. Without such a
    /// slot nothing changes and the result is `false`.
    pub fn set(&mut self, i: usize, token: Token) -> (r: bool)
        ensures
            r == (i < old(self)@.len()),
            r ==> final(self)@ == old(self)@.update(
                i as int,
                (TokenView { port: old(self)@[i as int].port, token: token@ }),
            ),
            !r ==> final(self)@ == old(self)@,
            old(self).wf() ==> final(self).wf(),
    {
        if i >= self.slots.len() {
            return false;
        }
        self.slots[i].token = token;
        true
    }

    /// Whether every slot holds a message. True of a node without inputs.
    pub fn all_ready(&self) -> (r: bool)
        ensures
            r == all_ready(self@),
    {
        let n = self.slots.len();
        let mut i: usize = 0;
        while i < n
            invariant
                n == self.slots.len(),
                i <= n,
                forall|k: int| 0 <= k < i ==> (#[trigger] self@[k]).token is Some,
            decreases n - i,
        {
            if !self.is_ready(i) {
                return false;
            }
            i += 1;
        }
        true
    }

    /// Consumes every waiting message: returns them with their ports, in port
    /// order, and leaves every slot empty.
    pub fn take_ready(&mut self) -> (r: Vec<(PortId, DataMessage)>)
        ensures
            inputs_view(r@) == ready_inputs(old(self)@),
            final(self)@ == emptied(old(self)@),
            old(self).wf() ==> final(self).wf(),
    {
        let mut out: Vec<(PortId, DataMessage)> = Vec::new();
        let n = self.slots.len();
        let ghost before = self@;
        let mut i: usize = 0;
        while i < n
            invariant
                n == self.slots.len(),
                n == before.len(),
                i <= n,
                forall|k: int| 0 <= k < i ==> #[trigger] self@[k] == (TokenView {
                    port: before[k].port,
                    token: None,
                }),
                forall|k: int| i <= k < n ==> #[trigger] self@[k] == before[k],
                inputs_view(out@) == ready_inputs(before.subrange(0, i as int)),
            decreases n - i,
        {
            let ghost cur = self@;
            assert(cur[i as int] == before[i as int]);
            let mut taken = Token::Empty;
            std::mem::swap(&mut self.slots[i].token, &mut taken);
            proof {
                assert(forall|k: int| 0 <= k < n && k != i ==> #[trigger] self@[k] == cur[k]);
                lemma_ready_inputs_push(before.subrange(0, i as int), before[i as int]);
                assert(before.subrange(0, i as int).push(before[i as int]) =~= before.subrange(
                    0,
                    i as int + 1,
                ));
            }
            match taken {
                Token::Ready(d) => {
                    out.push((self.slots[i].port.clone(), d));
                },
                Token::Empty => {},
            }
            i += 1;
        }
        proof {
            assert(before.subrange(0, n as int) =~= before);
        }
        out
    }
}

/// The capability by which an operator or a sink decides when it fires.
///
/// An implementation may inspect and change the tokens (drop one that is out
/// of date, for instance) but keeps the ports as they are.
pub trait InputRule {
    /// What the node keeps between firings.
    type State;

    /// Returns `Ok(true)` when the node should fire on the tokens as they are
    /// left.
    fn input_rule(
        &self,
        ctx: &InstanceContext,
        state: &mut Self::State,
        tokens: &mut TokenSet,
    ) -> (r: ZFResult<bool>)
        requires
            old(tokens).wf(),
        ensures
            final(tokens).wf(),
            token_ports(final(tokens)@) == token_ports(old(tokens)@),
    ;
}

/// Fires when every input has a message, and leaves the tokens as they are.
pub fn default_input_rule<S>(state: &mut S, tokens: &mut TokenSet) -> (r: ZFResult<bool>)
    ensures
        r matches Ok(fire) && fire == all_ready(old(tokens)@),
        final(tokens)@ == old(tokens)@,
        *final(state) == *old(state),
{
    Ok(tokens.all_ready())
}

/// The input rule of a node that keeps no state and waits for all its inputs.
pub struct DefaultInputRule;

impl InputRule for DefaultInputRule {
    type State = ();

    fn input_rule(&self, ctx: &InstanceContext, state: &mut (), tokens: &mut TokenSet) -> (r:
        ZFResult<bool>)
        ensures
            r matches Ok(fire) && fire == all_ready(old(tokens)@),
            final(tokens)@ == old(tokens)@,
    {
        default_input_rule(state, tokens)
    }
}

} // verus!
