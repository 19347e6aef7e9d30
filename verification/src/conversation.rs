//! One conversation's view-model, and the collection of those the window keeps.

use vstd::prelude::*;

use crate::api::{ConversationDetail, DetailV};
use crate::text;
use crate::text::Side;
use crate::voice::AdeleOutput;

verus! {

// ---------------------------------------------------------------------------
// One conversation
// ---------------------------------------------------------------------------

/// A reply in flight. A conversation has one exactly while a turn is streaming
/// into it.
#[derive(Clone, Debug, PartialEq, Eq)]
pub struct StreamState {
    /// The daemon's id of the reply stream, or `None` until its first frame (or
    /// the echo of the user's message) names it.
    pub request_id: Option<String>,
    /// The reply so far.
    pub buffer: String,
    /// Whether an aside was spoken during this turn, in which case the reply is
    /// not narrated on top of it.
    pub say_this_spoken_this_turn: bool,
    /// Whether the turn was started elsewhere. Whoever started it narrates it.
    pub external: bool,
    /// The background-task id that a cancel acts on; empty when unknown.
    pub task_id: String,
    /// The key of the send that started the turn, if it had one.
    pub idempotency_key: Option<String>,
}

/// The value of a [`StreamState`].
#[verifier::ext_equal]
pub struct StreamV {
    pub request_id: Option<Seq<char>>,
    pub buffer: Seq<char>,
    pub say_this_spoken_this_turn: bool,
    pub external: bool,
    pub task_id: Seq<char>,
    pub idempotency_key: Option<Seq<char>>,
}

impl View for StreamState {
    type V = StreamV;

    open spec fn view(&self) -> StreamV {
        StreamV {
            request_id: text::opt_view(self.request_id),
            buffer: self.buffer@,
            say_this_spoken_this_turn: self.say_this_spoken_this_turn,
            external: self.external,
            task_id: self.task_id@,
            idempotency_key: text::opt_view(self.idempotency_key),
        }
    }
}

impl Default for StreamState {
    fn default() -> (r: Self)
        ensures
            r@ == (StreamV {
                request_id: None,
                buffer: Seq::empty(),
                say_this_spoken_this_turn: false,
                external: false,
                task_id: Seq::empty(),
                idempotency_key: None,
            }),
    {
        StreamState {
            request_id: None,
            buffer: String::new(),
            say_this_spoken_this_turn: false,
            external: false,
            task_id: String::new(),
            idempotency_key: None,
        }
    }
}

/// The value of an optional stream.
pub open spec fn opt_stream(s: Option<StreamState>) -> Option<StreamV> {
    match s {
        Some(x) => Some(x@),
        None => None,
    }
}

/// One message awaiting flush.
#[derive(Clone, Debug, PartialEq, Eq)]
pub struct QueuedMessage {
    pub text: String,
    /// The key the message was submitted with, if any.
    pub idempotency_key: Option<String>,
}

/// The value of a [`QueuedMessage`].
#[verifier::ext_equal]
pub struct QueuedV {
    pub text: Seq<char>,
    pub idempotency_key: Option<Seq<char>>,
}

impl View for QueuedMessage {
    type V = QueuedV;

    open spec fn view(&self) -> QueuedV {
        QueuedV { text: self.text@, idempotency_key: text::opt_view(self.idempotency_key) }
    }
}

/// The values of a queue.
pub open spec fn queue(s: Seq<QueuedMessage>) -> Seq<QueuedV> {
    s.map_values(|q: QueuedMessage| q@)
}

/// The texts of a queue.
pub open spec fn texts(s: Seq<QueuedV>) -> Seq<Seq<char>> {
    s.map_values(|q: QueuedV| q.text)
}

/// A queued message pulled back into the composer for editing.
#[derive(Clone, Debug, PartialEq, Eq)]
pub struct QueuedEdit {
    /// The queue slot the message came from, where it is put back.
    pub index: usize,
    /// The text as it was when it was pulled back.
    pub original: String,
    /// The message's key, which survives the edit.
    pub key: Option<String>,
}

/// The value of a [`QueuedEdit`].
#[verifier::ext_equal]
pub struct EditV {
    pub index: nat,
    pub original: Seq<char>,
    pub key: Option<Seq<char>>,
}

impl View for QueuedEdit {
    type V = EditV;

    open spec fn view(&self) -> EditV {
        EditV {
            index: self.index as nat,
            original: self.original@,
            key: text::opt_view(self.key),
        }
    }
}

/// The value of an optional edit.
pub open spec fn opt_edit(e: Option<QueuedEdit>) -> Option<EditV> {
    match e {
        Some(x) => Some(x@),
        None => None,
    }
}

/// The value of an optional transcript.
pub open spec fn opt_detail(d: Option<ConversationDetail>) -> Option<DetailV> {
    match d {
        Some(x) => Some(x@),
        None => None,
    }
}

/// Everything the window keeps for one conversation.
#[derive(Clone, Debug, PartialEq, Eq)]
pub struct ConversationModel {
    /// The loaded transcript; `None` when only the small state is retained.
    pub detail: Option<ConversationDetail>,
    /// Whether voice input is enabled.
    pub voice_in: bool,
    /// The level of spoken output.
    pub adele_output: AdeleOutput,
    /// The unsent draft; empty when there is none.
    pub composer: String,
    /// Messages submitted while a reply was streaming, in submit order.
    pub outbox: Vec<QueuedMessage>,
    /// Messages of a flush that was sent but not acknowledged yet.
    pub pending_flush: Vec<QueuedMessage>,
    /// The queued message being edited, which is then absent from the outbox.
    pub editing: Option<QueuedEdit>,
    /// The reply in flight, if any.
    pub stream: Option<StreamState>,
}

/// The value of a [`ConversationModel`].
#[verifier::ext_equal]
pub struct ConversationV {
    pub detail: Option<DetailV>,
    pub voice_in: bool,
    pub adele_output: AdeleOutput,
    pub composer: Seq<char>,
    pub outbox: Seq<QueuedV>,
    pub pending_flush: Seq<QueuedV>,
    pub editing: Option<EditV>,
    pub stream: Option<StreamV>,
}

impl View for ConversationModel {
    type V = ConversationV;

    open spec fn view(&self) -> ConversationV {
        ConversationV {
            detail: opt_detail(self.detail),
            voice_in: self.voice_in,
            adele_output: self.adele_output,
            composer: self.composer@,
            outbox: queue(self.outbox@),
            pending_flush: queue(self.pending_flush@),
            editing: opt_edit(self.editing),
            stream: opt_stream(self.stream),
        }
    }
}

/// The model of a conversation nothing has been recorded for.
pub open spec fn fresh() -> ConversationV {
    ConversationV {
        detail: None,
        voice_in: false,
        adele_output: AdeleOutput::Disabled,
        composer: Seq::empty(),
        outbox: Seq::empty(),
        pending_flush: Seq::empty(),
        editing: None,
        stream: None,
    }
}

impl Default for ConversationModel {
    fn default() -> (r: Self)
        ensures
            r@ == fresh(),
    {
        let r = ConversationModel {
            detail: None,
            voice_in: false,
            adele_output: AdeleOutput::default(),
            composer: String::new(),
            outbox: Vec::new(),
            pending_flush: Vec::new(),
            editing: None,
            stream: None,
        };
        assert(r@ =~= fresh());
        r
    }
}

impl ConversationModel {
    /// The texts awaiting flush, in submit order.
    pub fn queued_texts(&self) -> (r: Vec<String>)
        ensures
            text::views(r@) == texts(self@.outbox),
    {
        let mut out: Vec<String> = Vec::new();
        let mut i: usize = 0;
        while i < self.outbox.len()
            invariant
                i <= self.outbox@.len(),
                text::views(out@) == texts(self@.outbox).take(i as int),
            decreases self.outbox@.len() - i,
        {
            let ghost done = text::views(out@);
            let ghost next = self.outbox@[i as int].text@;
            out.push(self.outbox[i].text.clone());
            proof {
                assert(text::views(out@) == done.push(next));
                assert(texts(self@.outbox)[i as int] == next);
                assert(texts(self@.outbox).take(i + 1) == texts(self@.outbox).take(i as int).push(
                    next,
                ));
            }
            i += 1;
        }
        assert(texts(self@.outbox).take(self.outbox@.len() as int) == texts(self@.outbox));
        out
    }
}

// ---------------------------------------------------------------------------
// The collection
// ---------------------------------------------------------------------------

/// The models of the conversations the window has touched, by conversation id.
/// The ids are kept in the order of [`text::precedes`], which fixes the order in
/// which conversations are walked.
#[derive(Debug)]
pub struct OpenConversations {
    table: Table,
}

/// Ids and models, side by side.
#[derive(Debug)]
struct Table {
    ids: Vec<String>,
    models: Vec<ConversationModel>,
}

/// Ids in strictly ascending order.
pub open spec fn ascending(s: Seq<Seq<char>>) -> bool {
    forall|i: int, j: int|
        0 <= i < j < s.len() ==> text::precedes(#[trigger] s[i], #[trigger] s[j])
}

/// Whether conversation `id` has a reply in flight.
pub open spec fn is_streaming(m: Map<Seq<char>, ConversationV>, id: Seq<char>) -> bool {
    m.contains_key(id) && m[id].stream is Some
}

/// Whether any conversation has a reply in flight.
pub open spec fn some_streaming(m: Map<Seq<char>, ConversationV>) -> bool {
    exists|id: Seq<char>| #[trigger] is_streaming(m, id)
}

/// Whether the reply in flight of `id` carries `request_id`.
pub open spec fn claims(
    m: Map<Seq<char>, ConversationV>,
    id: Seq<char>,
    request_id: Seq<char>,
) -> bool {
    is_streaming(m, id) && m[id].stream->0.request_id == Some(request_id)
}

/// Whether `id` has a reply in flight that no request id has claimed yet.
pub open spec fn is_pending(m: Map<Seq<char>, ConversationV>, id: Seq<char>) -> bool {
    is_streaming(m, id) && m[id].stream->0.request_id is None
}

/// Whether `id` is the least id whose reply carries `request_id`.
pub open spec fn is_first_claimant(
    m: Map<Seq<char>, ConversationV>,
    id: Seq<char>,
    request_id: Seq<char>,
) -> bool {
    claims(m, id, request_id) && forall|other: Seq<char>| #[trigger]
        claims(m, other, request_id) && other != id ==> text::precedes(id, other)
}

/// Whether `id` is the only conversation with an unclaimed reply.
pub open spec fn is_sole_pending(m: Map<Seq<char>, ConversationV>, id: Seq<char>) -> bool {
    is_pending(m, id) && forall|other: Seq<char>| #[trigger] is_pending(m, other) ==> other == id
}

/// The conversation a stream event carrying `request_id` belongs to: the one
/// whose reply carries that id (the least one, should there be several);
/// otherwise the only one whose reply is still unclaimed; otherwise none.
pub open spec fn owner(m: Map<Seq<char>, ConversationV>, request_id: Seq<char>) -> Option<
    Seq<char>,
> {
    if exists|id: Seq<char>| #[trigger] is_first_claimant(m, id, request_id) {
        Some(choose|id: Seq<char>| #[trigger] is_first_claimant(m, id, request_id))
    } else if exists|id: Seq<char>| #[trigger] is_sole_pending(m, id) {
        Some(choose|id: Seq<char>| #[trigger] is_sole_pending(m, id))
    } else {
        None
    }
}

/// Whether `s` lists the conversations with a reply in flight, ascending.
pub open spec fn lists_streaming(m: Map<Seq<char>, ConversationV>, s: Seq<Seq<char>>) -> bool {
    ascending(s) && forall|id: Seq<char>| #[trigger] s.contains(id) <==> is_streaming(m, id)
}

/// The conversations with a reply in flight, ascending.
pub open spec fn streaming_ids(m: Map<Seq<char>, ConversationV>) -> Seq<Seq<char>> {
    choose|s: Seq<Seq<char>>| lists_streaming(m, s)
}

/// The replies in flight with their conversations, ascending by conversation.
pub open spec fn streams(m: Map<Seq<char>, ConversationV>) -> Seq<(Seq<char>, StreamV)> {
    streaming_ids(m).map_values(|id: Seq<char>| (id, m[id].stream->0))
}

/// The values of a list of streams with their conversations.
pub open spec fn owned_streams(s: Seq<(String, StreamState)>) -> Seq<(Seq<char>, StreamV)> {
    s.map_values(|p: (String, StreamState)| (p.0@, p.1@))
}

/// Every model without its reply in flight.
pub open spec fn without_streams(m: Map<Seq<char>, ConversationV>) -> Map<
    Seq<char>,
    ConversationV,
> {
    m.map_values(|c: ConversationV| ConversationV { stream: None, ..c })
}

/// Two ascending lists with the same members are the same list.
pub proof fn ascending_unique(a: Seq<Seq<char>>, b: Seq<Seq<char>>)
    requires
        ascending(a),
        ascending(b),
        forall|x: Seq<char>| #[trigger] a.contains(x) <==> b.contains(x),
    ensures
        a == b,
    decreases a.len(),
{
    if a.len() == 0 {
        if b.len() > 0 {
            assert(b.contains(b[0]));
            assert(a.contains(b[0]));
        }
        assert(a =~= b);
    } else {
        assert(a.contains(a.last()));
        assert(b.contains(a.last()));
        assert(b.contains(b.last()));
        assert(a.contains(b.last()));
        let i = choose|i: int| 0 <= i < a.len() && a[i] == b.last();
        let j = choose|j: int| 0 <= j < b.len() && b[j] == a.last();
        if a.last() != b.last() {
            assert(text::precedes(a[i], a[a.len() - 1]));
            assert(text::precedes(b[j], b[b.len() - 1]));
            text::precedes_transitive(a.last(), b.last(), a.last());
            text::precedes_irreflexive(a.last());
        }
        let a0 = a.drop_last();
        let b0 = b.drop_last();
        assert forall|x: Seq<char>| #[trigger] a0.contains(x) <==> b0.contains(x) by {
            if a0.contains(x) {
                let k = choose|k: int| 0 <= k < a0.len() && a0[k] == x;
                assert(a[k] == x && text::precedes(a[k], a[a.len() - 1]));
                text::precedes_irreflexive(x);
                assert(a.contains(x));
                assert(b.contains(x));
                let l = choose|l: int| 0 <= l < b.len() && b[l] == x;
                assert(b0[l] == x);
            }
            if b0.contains(x) {
                let k = choose|k: int| 0 <= k < b0.len() && b0[k] == x;
                assert(b[k] == x && text::precedes(b[k], b[b.len() - 1]));
                text::precedes_irreflexive(x);
                assert(b.contains(x));
                assert(a.contains(x));
                let l = choose|l: int| 0 <= l < a.len() && a[l] == x;
                assert(a0[l] == x);
            }
        }
        ascending_unique(a0, b0);
        assert(a =~= a0.push(a.last()));
        assert(b =~= b0.push(b.last()));
    }
}

/// A finite set of texts that is not empty has a least member.
pub proof fn least_exists(s: Set<Seq<char>>) -> (least: Seq<char>)
    requires
        s.finite(),
        s.len() > 0,
    ensures
        s.contains(least),
        forall|x: Seq<char>| #[trigger] s.contains(x) && x != least ==> text::precedes(least, x),
    decreases s.len(),
{
    let a = s.choose();
    let rest = s.remove(a);
    if rest.len() == 0 {
        assert forall|x: Seq<char>| #[trigger] s.contains(x) implies x == a by {
            if x != a {
                assert(rest.contains(x));
            }
        }
        a
    } else {
        let b = least_exists(rest);
        text::precedes_total(a, b);
        if text::precedes(a, b) {
            assert forall|x: Seq<char>| #[trigger] s.contains(x) && x != a implies text::precedes(
                a,
                x,
            ) by {
                assert(rest.contains(x));
                if x != b {
                    text::precedes_transitive(a, b, x);
                }
            }
            a
        } else {
            assert forall|x: Seq<char>| #[trigger] s.contains(x) && x != b implies text::precedes(
                b,
                x,
            ) by {
                if x != a {
                    assert(rest.contains(x));
                }
            }
            b
        }
    }
}

/// A finite set of texts can be listed in ascending order.
pub proof fn ascending_list(s: Set<Seq<char>>) -> (list: Seq<Seq<char>>)
    requires
        s.finite(),
    ensures
        ascending(list),
        forall|x: Seq<char>| #[trigger] list.contains(x) <==> s.contains(x),
    decreases s.len(),
{
    if s.len() == 0 {
        Seq::empty()
    } else {
        let least = least_exists(s);
        let rest = s.remove(least);
        let tail = ascending_list(rest);
        let list = seq![least] + tail;
        assert forall|i: int, j: int| 0 <= i < j < list.len() implies text::precedes(
            #[trigger] list[i],
            #[trigger] list[j],
        ) by {
            assert(list[j] == tail[j - 1]);
            assert(tail.contains(tail[j - 1]));
            if i > 0 {
                assert(list[i] == tail[i - 1]);
            }
        }
        assert forall|x: Seq<char>| #[trigger] list.contains(x) <==> s.contains(x) by {
            if list.contains(x) {
                let i = list.index_of(x);
                if i > 0 {
                    assert(list[i] == tail[i - 1]);
                    assert(tail.contains(x));
                }
            }
            if s.contains(x) {
                if x == least {
                    assert(list[0] == x);
                } else {
                    assert(tail.contains(x));
                    let i = tail.index_of(x);
                    assert(list[i + 1] == x);
                }
            }
        }
        list
    }
}

/// The listed conversations are exactly those with a reply in flight, ascending.
pub proof fn streaming_ids_listed(m: Map<Seq<char>, ConversationV>)
    requires
        m.dom().finite(),
    ensures
        lists_streaming(m, streaming_ids(m)),
{
    let s = m.dom().filter(|x: Seq<char>| is_streaming(m, x));
    let list = ascending_list(s);
    assert(lists_streaming(m, list));
}

/// A reply that carries an event's id wins over one that is unclaimed: when some
/// reply carries the id, the owner is the least conversation with such a reply.
pub proof fn claimant_owns(m: Map<Seq<char>, ConversationV>, id: Seq<char>, request_id: Seq<char>)
    requires
        m.dom().finite(),
        claims(m, id, request_id),
    ensures
        owner(m, request_id) is Some,
        is_first_claimant(m, owner(m, request_id)->0, request_id),
{
    let s = m.dom().filter(|x: Seq<char>| claims(m, x, request_id));
    assert(s.contains(id));
    assert(s.len() > 0) by {
        assert(s.remove(id).len() + 1 == s.len());
    }
    let least = least_exists(s);
    assert forall|other: Seq<char>| #[trigger]
        claims(m, other, request_id) && other != least implies text::precedes(least, other) by {
        assert(s.contains(other));
    }
    assert(is_first_claimant(m, least, request_id));
}

/// An event whose id no reply carries belongs to the only unclaimed reply; with
/// none, or with several, it belongs to no conversation.
pub proof fn an_unclaimed_event_is_routed_when_unambiguous(
    m: Map<Seq<char>, ConversationV>,
    request_id: Seq<char>,
    id: Seq<char>,
    other: Seq<char>,
)
    requires
        forall|x: Seq<char>| !#[trigger] claims(m, x, request_id),
    ensures
        is_sole_pending(m, id) ==> owner(m, request_id) == Some(id),
        is_pending(m, id) && is_pending(m, other) && id != other ==> owner(m, request_id) is None,
        (forall|x: Seq<char>| !#[trigger] is_pending(m, x)) ==> owner(m, request_id) is None,
{
}

/// A reply that is claimed keeps its claim: an event under another id never goes to
/// it.
pub proof fn a_claim_excludes_other_events(
    m: Map<Seq<char>, ConversationV>,
    id: Seq<char>,
    request_id: Seq<char>,
    other: Seq<char>,
)
    requires
        claims(m, id, request_id),
        other != request_id,
    ensures
        owner(m, other) != Some(id),
{
}

/// The owner of an event has a reply in flight, which carries the event's id or
/// is unclaimed.
pub proof fn owner_is_streaming(m: Map<Seq<char>, ConversationV>, request_id: Seq<char>)
    ensures
        owner(m, request_id) is Some ==> {
            &&& is_streaming(m, owner(m, request_id)->0)
            &&& m[owner(m, request_id)->0].stream->0.request_id == Some(request_id)
                || m[owner(m, request_id)->0].stream->0.request_id is None
        },
{
}

impl Table {
    /// The ids, as texts.
    spec fn keys(&self) -> Seq<Seq<char>> {
        text::views(self.ids@)
    }

    /// The representation invariant: one model per id, ids strictly ascending.
    spec fn wf(&self) -> bool {
        &&& self.ids@.len() == self.models@.len()
        &&& ascending(self.keys())
    }

    /// The models by id.
    spec fn view(&self) -> Map<Seq<char>, ConversationV> {
        Map::new(
            |k: Seq<char>| self.keys().contains(k),
            |k: Seq<char>| self.models@[self.keys().index_of(k)]@,
        )
    }

    proof fn lemma_entry(&self, i: int)
        requires
            self.wf(),
            0 <= i < self.ids@.len(),
        ensures
            self@.contains_key(self.ids@[i]@),
            self@[self.ids@[i]@] == self.models@[i]@,
            self.keys().index_of(self.ids@[i]@) == i,
            self.keys()[i] == self.ids@[i]@,
    {
        let k = self.keys()[i];
        assert(self.keys().contains(k));
        let j = self.keys().index_of(k);
        if i < j {
            assert(text::precedes(self.keys()[i], self.keys()[j]));
            text::precedes_irreflexive(k);
        } else if j < i {
            assert(text::precedes(self.keys()[j], self.keys()[i]));
            text::precedes_irreflexive(k);
        }
    }

    /// No models.
    fn new() -> (r: Self)
        ensures
            r.wf(),
            r@ == Map::<Seq<char>, ConversationV>::empty(),
    {
        let r = Table { ids: Vec::new(), models: Vec::new() };
        assert(r@ =~= Map::<Seq<char>, ConversationV>::empty());
        r
    }

    /// The first position whose id does not stand before `id`.
    fn position(&self, id: &str) -> (r: usize)
        requires
            self.wf(),
        ensures
            r <= self.ids@.len(),
            forall|j: int| 0 <= j < r ==> text::precedes(#[trigger] self.keys()[j], id@),
            r < self.ids@.len() ==> self.keys()[r as int] == id@ || text::precedes(
                id@,
                self.keys()[r as int],
            ),
            self.keys().contains(id@) <==> (r < self.ids@.len() && self.keys()[r as int] == id@),
    {
        let mut i: usize = 0;
        while i < self.ids.len()
            invariant
                self.wf(),
                i <= self.ids@.len(),
                forall|j: int| 0 <= j < i ==> text::precedes(#[trigger] self.keys()[j], id@),
            decreases self.ids@.len() - i,
        {
            assert(self.keys()[i as int] == self.ids@[i as int]@);
            match text::side(self.ids[i].as_str(), id) {
                Side::Before => {},
                Side::Equal => {
                    return i;
                },
                Side::After => {
                    proof {
                        self.lemma_absent(id@, i as int);
                    }
                    return i;
                },
            }
            i += 1;
        }
        proof {
            self.lemma_absent(id@, i as int);
        }
        i
    }

    proof fn lemma_absent(&self, id: Seq<char>, i: int)
        requires
            self.wf(),
            0 <= i <= self.ids@.len(),
            forall|j: int| 0 <= j < i ==> text::precedes(#[trigger] self.keys()[j], id),
            i < self.ids@.len() ==> text::precedes(id, self.keys()[i]),
        ensures
            !self.keys().contains(id),
    {
        text::precedes_irreflexive(id);
        if self.keys().contains(id) {
            let k = choose|k: int| 0 <= k < self.keys().len() && self.keys()[k] == id;
            if k > i {
                assert(text::precedes(self.keys()[i], self.keys()[k]));
                text::precedes_transitive(id, self.keys()[i], id);
            }
        }
    }

    /// Whether there are no models.
    fn is_empty(&self) -> (r: bool)
        requires
            self.wf(),
        ensures
            r == (self@ == Map::<Seq<char>, ConversationV>::empty()),
    {
        proof {
            if self.ids@.len() > 0 {
                self.lemma_entry(0);
            } else {
                assert(self@ =~= Map::<Seq<char>, ConversationV>::empty());
            }
        }
        self.ids.len() == 0
    }

    /// Whether there is a model for `id`.
    fn contains_key(&self, id: &str) -> (r: bool)
        requires
            self.wf(),
        ensures
            r == self@.contains_key(id@),
    {
        let i: usize = self.position(id);
        i < self.ids.len() && text::same(self.ids[i].as_str(), id)
    }

    /// The model of `id`, if there is one.
    fn get(&self, id: &str) -> (r: Option<&ConversationModel>)
        requires
            self.wf(),
        ensures
            match r {
                Some(m) => self@.contains_key(id@) && m@ == self@[id@],
                None => !self@.contains_key(id@),
            },
    {
        let i: usize = self.position(id);
        if i < self.ids.len() && text::same(self.ids[i].as_str(), id) {
            proof {
                self.lemma_entry(i as int);
            }
            Some(&self.models[i])
        } else {
            None
        }
    }

    proof fn lemma_update(&self, new: Self, i: int)
        requires
            self.wf(),
            0 <= i < self.ids@.len(),
            new.ids == self.ids,
            new.models@ == self.models@.update(i, new.models@[i]),
        ensures
            new.wf(),
            new@ == self@.insert(self.ids@[i]@, new.models@[i]@),
    {
        let k = self.ids@[i]@;
        assert(new.wf());
        self.lemma_entry(i);
        new.lemma_entry(i);
        assert forall|x: Seq<char>| #[trigger] self@.contains_key(x) && x != k implies new@[x]
            == self@[x] by {
            let j = self.keys().index_of(x);
            assert(self.keys()[j] == x);
        }
        assert(new@ =~= self@.insert(k, new.models@[i]@));
    }

    proof fn lemma_updates(&self, i: int)
        requires
            self.wf(),
            0 <= i < self.ids@.len(),
        ensures
            forall|new: Self|
                new.ids == self.ids && #[trigger] new.models@ == self.models@.update(
                    i,
                    new.models@[i],
                ) ==> new.wf() && new@ == self@.insert(self.ids@[i]@, new.models@[i]@),
    {
        assert forall|new: Self|
            new.ids == self.ids && #[trigger] new.models@ == self.models@.update(
                i,
                new.models@[i],
            ) implies new.wf() && new@ == self@.insert(self.ids@[i]@, new.models@[i]@) by {
            self.lemma_update(new, i);
        }
    }

    proof fn lemma_insert(&self, new: Self, id: Seq<char>, i: int)
        requires
            self.wf(),
            0 <= i <= self.ids@.len(),
            forall|j: int| 0 <= j < i ==> text::precedes(#[trigger] self.keys()[j], id),
            i < self.ids@.len() ==> text::precedes(id, self.keys()[i]),
            new.ids@.len() == new.models@.len(),
            new.keys() == self.keys().insert(i, id),
            new.models@ == self.models@.insert(i, new.models@[i]),
        ensures
            new.wf(),
            new@ == self@.insert(id, new.models@[i]@),
    {
        assert(new.wf()) by {
            assert forall|a: int, b: int| 0 <= a < b < new.keys().len() implies text::precedes(
                #[trigger] new.keys()[a],
                #[trigger] new.keys()[b],
            ) by {
                if a == i {
                    assert(new.keys()[b] == self.keys()[b - 1]);
                    if b - 1 > i {
                        assert(text::precedes(self.keys()[i], self.keys()[b - 1]));
                        text::precedes_transitive(id, self.keys()[i], self.keys()[b - 1]);
                    }
                } else if b == i {
                    assert(new.keys()[a] == self.keys()[a]);
                } else {
                    let a0 = if a < i { a } else { a - 1 };
                    let b0 = if b < i { b } else { b - 1 };
                    assert(new.keys()[a] == self.keys()[a0]);
                    assert(new.keys()[b] == self.keys()[b0]);
                }
            }
        }
        self.lemma_absent(id, i);
        assert(new.keys()[i] == new.ids@[i]@);
        new.lemma_entry(i);
        assert forall|x: Seq<char>| #[trigger] new@.contains_key(x) <==> self@.contains_key(x) || x
            == id by {
            if new@.contains_key(x) && x != id {
                let j = new.keys().index_of(x);
                assert(new.keys()[j] == x);
                let j0 = if j < i { j } else { j - 1 };
                assert(self.keys()[j0] == x);
            }
            if self@.contains_key(x) {
                let j = self.keys().index_of(x);
                assert(self.keys()[j] == x);
                let j1 = if j < i { j } else { j + 1 };
                assert(new.keys()[j1] == x);
            }
        }
        assert forall|x: Seq<char>| #[trigger] self@.contains_key(x) implies new@[x]
            == self@[x] by {
            let j = self.keys().index_of(x);
            assert(self.keys()[j] == x);
            let j1 = if j < i { j } else { j + 1 };
            assert(new.keys()[j1] == x);
            assert(new.ids@[j1]@ == x);
            new.lemma_entry(j1);
            assert(new.models@[j1] == self.models@[j]);
        }
        assert(new@ =~= self@.insert(id, new.models@[i]@));
    }

    /// The position of `id`, given a fresh model when there is none.
    fn slot(&mut self, id: &str) -> (r: usize)
        requires
            old(self).wf(),
        ensures
            final(self).wf(),
            r < final(self).ids@.len(),
            final(self).ids@[r as int]@ == id@,
            final(self)@ == old(self)@.insert(
                id@,
                if old(self)@.contains_key(id@) {
                    old(self)@[id@]
                } else {
                    fresh()
                },
            ),
    {
        let i: usize = self.position(id);
        let ghost before = *self;
        if i < self.ids.len() && text::same(self.ids[i].as_str(), id) {
            proof {
                self.lemma_entry(i as int);
                assert(self@ =~= before@.insert(id@, before@[id@]));
            }
        } else {
            self.ids.insert(i, id.to_owned());
            self.models.insert(i, ConversationModel::default());
            proof {
                assert(self.keys() =~= before.keys().insert(i as int, id@));
                before.lemma_insert(*self, id@, i as int);
            }
        }
        i
    }

    /// The ids of the conversations with a model, ascending.
    fn ids(&self) -> (r: Vec<String>)
        requires
            self.wf(),
        ensures
            ascending(text::views(r@)),
            forall|id: Seq<char>| #[trigger]
                text::views(r@).contains(id) <==> self@.contains_key(id),
    {
        let r = self.ids.clone();
        assert(text::views(r@) =~= self.keys());
        r
    }

    /// Drop the model of `id`, if there is one.
    fn remove(&mut self, id: &str)
        requires
            old(self).wf(),
        ensures
            final(self).wf(),
            final(self)@ == old(self)@.remove(id@),
    {
        let i: usize = self.position(id);
        let ghost before = *self;
        if i < self.ids.len() && text::same(self.ids[i].as_str(), id) {
            self.ids.remove(i);
            self.models.remove(i);
            proof {
                assert(self.keys() =~= before.keys().remove(i as int));
                before.lemma_remove(*self, i as int);
            }
        } else {
            assert(self@ =~= before@.remove(id@));
        }
    }

    proof fn lemma_remove(&self, new: Self, i: int)
        requires
            self.wf(),
            0 <= i < self.ids@.len(),
            new.ids@.len() == new.models@.len(),
            new.keys() == self.keys().remove(i),
            new.models@ == self.models@.remove(i),
        ensures
            new.wf(),
            new@ == self@.remove(self.ids@[i]@),
    {
        let id = self.ids@[i]@;
        self.lemma_entry(i);
        assert(new.wf()) by {
            assert forall|a: int, b: int| 0 <= a < b < new.keys().len() implies text::precedes(
                #[trigger] new.keys()[a],
                #[trigger] new.keys()[b],
            ) by {
                let a1 = if a < i { a } else { a + 1 };
                let b1 = if b < i { b } else { b + 1 };
                assert(new.keys()[a] == self.keys()[a1]);
                assert(new.keys()[b] == self.keys()[b1]);
            }
        }
        assert forall|x: Seq<char>| #[trigger] new@.contains_key(x) <==> self@.contains_key(x) && x
            != id by {
            if new@.contains_key(x) {
                let j = new.keys().index_of(x);
                assert(new.keys()[j] == x);
                let j1 = if j < i { j } else { j + 1 };
                assert(self.keys()[j1] == x);
                self.lemma_entry(j1);
            }
            if self@.contains_key(x) && x != id {
                let j = self.keys().index_of(x);
                assert(self.keys()[j] == x);
                let j0 = if j < i { j } else { j - 1 };
                assert(new.keys()[j0] == x);
            }
        }
        assert forall|x: Seq<char>| #[trigger] new@.contains_key(x) implies new@[x]
            == self@[x] by {
            let j = new.keys().index_of(x);
            assert(new.keys()[j] == x);
            let j1 = if j < i { j } else { j + 1 };
            assert(self.keys()[j1] == x);
            self.lemma_entry(j1);
            assert(self.models@[j1] == new.models@[j]);
        }
        assert(new@ =~= self@.remove(id));
    }

    /// The conversation that a stream event carrying `request_id` belongs to
    /// (see [`owner`]).
    fn owner_of(&self, request_id: &str) -> (r: Option<String>)
        requires
            self.wf(),
        ensures
            text::opt_view(r) == owner(self@, request_id@),
    {
        let mut i: usize = 0;
        let mut pending: usize = 0;
        let mut last: usize = 0;
        while i < self.ids.len()
            invariant
                self.wf(),
                i <= self.ids@.len(),
                pending <= i,
                forall|j: int|
                    0 <= j < i ==> !claims(self@, #[trigger] self.keys()[j], request_id@),
                pending == 0 ==> forall|j: int|
                    0 <= j < i ==> !is_pending(self@, #[trigger] self.keys()[j]),
                pending > 0 ==> last < i && is_pending(self@, self.keys()[last as int]),
                pending == 1 ==> forall|j: int|
                    0 <= j < i && j != last ==> !is_pending(self@, #[trigger] self.keys()[j]),
                pending > 1 ==> exists|j: int|
                    0 <= j < last && is_pending(self@, #[trigger] self.keys()[j]),
            decreases self.ids@.len() - i,
        {
            proof {
                self.lemma_entry(i as int);
            }
            if let Some(stream) = &self.models[i].stream {
                match &stream.request_id {
                    Some(claimed) => {
                        if text::same(claimed.as_str(), request_id) {
                            proof {
                                self.lemma_first_claimant(i as int, request_id@);
                            }
                            return Some(self.ids[i].clone());
                        }
                    },
                    None => {
                        assert(is_pending(self@, self.keys()[i as int]));
                        assert(pending > 0 ==> is_pending(self@, self.keys()[last as int]));
                        pending += 1;
                        last = i;
                    },
                }
            }
            i += 1;
        }
        proof {
            self.lemma_no_claimant(request_id@);
        }
        if pending == 1 {
            proof {
                assert forall|other: Seq<char>| #[trigger] is_pending(self@, other) implies other
                    == self.keys()[last as int] by {
                    let j = self.keys().index_of(other);
                    assert(self.keys()[j] == other);
                }
                assert(is_sole_pending(self@, self.keys()[last as int]));
            }
            Some(self.ids[last].clone())
        } else {
            proof {
                if exists|id: Seq<char>| #[trigger] is_sole_pending(self@, id) {
                    let id = choose|id: Seq<char>| #[trigger] is_sole_pending(self@, id);
                    let k = self.keys().index_of(id);
                    assert(self.keys()[k] == id);
                    if pending > 1 {
                        let j = choose|j: int|
                            0 <= j < last && is_pending(self@, #[trigger] self.keys()[j]);
                        assert(self.keys()[j] == id);
                        assert(self.keys()[last as int] == id);
                        self.lemma_entry(j);
                        self.lemma_entry(last as int);
                    }
                }
            }
            None
        }
    }

    proof fn lemma_first_claimant(&self, i: int, request_id: Seq<char>)
        requires
            self.wf(),
            0 <= i < self.ids@.len(),
            claims(self@, self.keys()[i], request_id),
            forall|j: int| 0 <= j < i ==> !claims(self@, #[trigger] self.keys()[j], request_id),
        ensures
            owner(self@, request_id) == Some(self.ids@[i]@),
    {
        let id = self.keys()[i];
        assert forall|other: Seq<char>| #[trigger]
            claims(self@, other, request_id) && other != id implies text::precedes(id, other) by {
            let j = self.keys().index_of(other);
            assert(self.keys()[j] == other);
            assert(j > i);
        }
        assert(is_first_claimant(self@, id, request_id));
        let chosen = choose|id: Seq<char>| #[trigger] is_first_claimant(self@, id, request_id);
        if chosen != id {
            assert(text::precedes(id, chosen));
            assert(text::precedes(chosen, id));
            text::precedes_transitive(id, chosen, id);
            text::precedes_irreflexive(id);
        }
    }

    proof fn lemma_no_claimant(&self, request_id: Seq<char>)
        requires
            self.wf(),
            forall|j: int|
                0 <= j < self.ids@.len() ==> !claims(self@, #[trigger] self.keys()[j], request_id),
        ensures
            forall|id: Seq<char>| !#[trigger] claims(self@, id, request_id),
    {
        assert forall|id: Seq<char>| !#[trigger] claims(self@, id, request_id) by {
            if claims(self@, id, request_id) {
                let j = self.keys().index_of(id);
                assert(self.keys()[j] == id);
            }
        }
    }

    /// Whether any conversation has a reply in flight.
    fn any_streaming(&self) -> (r: bool)
        requires
            self.wf(),
        ensures
            r == some_streaming(self@),
    {
        let mut i: usize = 0;
        while i < self.ids.len()
            invariant
                self.wf(),
                i <= self.ids@.len(),
                forall|j: int| 0 <= j < i ==> !is_streaming(self@, #[trigger] self.keys()[j]),
            decreases self.ids@.len() - i,
        {
            proof {
                self.lemma_entry(i as int);
            }
            if self.models[i].stream.is_some() {
                assert(is_streaming(self@, self.keys()[i as int]));
                return true;
            }
            i += 1;
        }
        assert forall|id: Seq<char>| !#[trigger] is_streaming(self@, id) by {
            if is_streaming(self@, id) {
                let j = self.keys().index_of(id);
                assert(self.keys()[j] == id);
            }
        }
        false
    }

    /// Drop every reply in flight, and hand them out with their conversations in
    /// ascending order of conversation.
    fn take_streams(&mut self) -> (r: Vec<(String, StreamState)>)
        requires
            old(self).wf(),
        ensures
            final(self).wf(),
            final(self)@ == without_streams(old(self)@),
            owned_streams(r@) == streams(old(self)@),
    {
        let mut out: Vec<(String, StreamState)> = Vec::new();
        let mut i: usize = 0;
        let ghost before = *self;
        let ghost mut found: Seq<int> = Seq::empty();
        while i < self.ids.len()
            invariant
                before.wf(),
                self.ids == before.ids,
                self.ids@.len() == self.models@.len(),
                i <= self.ids@.len(),
                forall|j: int|
                    0 <= j < i ==> (#[trigger] self.models@[j])@ == (ConversationV {
                        stream: None,
                        ..before.models@[j]@
                    }),
                forall|j: int|
                    i <= j < self.ids@.len() ==> (#[trigger] self.models@[j])@
                        == before.models@[j]@,
                found.len() == out@.len(),
                forall|j: int| 0 <= j < found.len() ==> 0 <= #[trigger] found[j] < i,
                forall|j: int, k: int|
                    0 <= j < k < found.len() ==> #[trigger] found[j] < #[trigger] found[k],
                forall|j: int|
                    0 <= j < i && before.models@[j]@.stream is Some ==> #[trigger] found.contains(
                        j,
                    ),
                forall|j: int|
                    #![trigger found[j]]
                    #![trigger out@[j]]
                    0 <= j < found.len() ==> {
                        &&& before.models@[found[j]]@.stream == Some(out@[j].1@)
                        &&& out@[j].0@ == before.keys()[found[j]]
                    },
            decreases self.ids@.len() - i,
        {
            let ghost current = self.models@[i as int]@;
            let taken = self.models[i].stream.take();
            assert(self.models@[i as int]@ =~= (ConversationV { stream: None, ..current }));
            if let Some(stream) = taken {
                out.push((self.ids[i].clone(), stream));
                proof {
                    let was = found;
                    found = found.push(i as int);
                    assert forall|j: int|
                        0 <= j <= i && before.models@[j]@.stream is Some implies
                        #[trigger] found.contains(j) by {
                        if j < i {
                            assert(was.contains(j));
                            let k = was.index_of(j);
                            assert(found[k] == j);
                        } else {
                            assert(found[found.len() - 1] == j);
                        }
                    }
                }
            }
            i += 1;
        }
        proof {
            before.lemma_taken(*self, out@, found);
        }
        out
    }

    proof fn lemma_taken(&self, new: Self, out: Seq<(String, StreamState)>, found: Seq<int>)
        requires
            self.wf(),
            new.ids == self.ids,
            new.models@.len() == self.models@.len(),
            forall|j: int|
                0 <= j < self.ids@.len() ==> (#[trigger] new.models@[j])@ == (ConversationV {
                    stream: None,
                    ..self.models@[j]@
                }),
            found.len() == out.len(),
            forall|j: int| 0 <= j < found.len() ==> 0 <= #[trigger] found[j] < self.ids@.len(),
            forall|j: int, k: int|
                0 <= j < k < found.len() ==> #[trigger] found[j] < #[trigger] found[k],
            forall|j: int|
                0 <= j < self.ids@.len() && self.models@[j]@.stream is Some ==>
                    #[trigger] found.contains(j),
            forall|j: int|
                #![trigger found[j]]
                #![trigger out[j]]
                0 <= j < found.len() ==> {
                    &&& self.models@[found[j]]@.stream == Some(out[j].1@)
                    &&& out[j].0@ == self.keys()[found[j]]
                },
        ensures
            new.wf(),
            new@ == without_streams(self@),
            owned_streams(out) == streams(self@),
    {
        assert(new.wf());
        assert forall|x: Seq<char>| #[trigger] self@.contains_key(x) implies new@[x]
            == without_streams(self@)[x] by {
            let j = self.keys().index_of(x);
            assert(self.keys()[j] == x);
            self.lemma_entry(j);
            new.lemma_entry(j);
        }
        assert(new@ =~= without_streams(self@));
        let ids = found.map_values(|j: int| self.keys()[j]);
        assert(ascending(ids));
        assert forall|id: Seq<char>| #[trigger] ids.contains(id) <==> is_streaming(self@, id) by {
            if ids.contains(id) {
                let k = ids.index_of(id);
                assert(ids[k] == self.keys()[found[k]]);
                self.lemma_entry(found[k]);
            }
            if is_streaming(self@, id) {
                let j = self.keys().index_of(id);
                assert(self.keys()[j] == id);
                self.lemma_entry(j);
                assert(found.contains(j));
                let k = found.index_of(j);
                assert(ids[k] == id);
            }
        }
        assert(lists_streaming(self@, ids));
        ascending_unique(ids, streaming_ids(self@));
        assert forall|j: int| 0 <= j < out.len() implies #[trigger] owned_streams(out)[j]
            == streams(self@)[j] by {
            self.lemma_entry(found[j]);
            assert(ids[j] == self.keys()[found[j]]);
        }
        assert(owned_streams(out) =~= streams(self@));
    }
}

impl OpenConversations {
    /// One model per id, ids strictly ascending.
    #[verifier::type_invariant]
    spec fn inv(self) -> bool {
        self.table.wf()
    }

    /// The models by id.
    pub closed spec fn view(&self) -> Map<Seq<char>, ConversationV> {
        self.table@
    }

    /// No models.
    pub fn new() -> (r: Self)
        ensures
            r@ == Map::<Seq<char>, ConversationV>::empty(),
    {
        OpenConversations { table: Table::new() }
    }

    /// Whether there are no models.
    pub fn is_empty(&self) -> (r: bool)
        ensures
            r == (self@ == Map::<Seq<char>, ConversationV>::empty()),
    {
        proof {
            use_type_invariant(self);
        }
        self.table.is_empty()
    }

    /// Finitely many conversations have a model. Does nothing when run; a caller
    /// learns the fact.
    pub(crate) fn note_finite(&self)
        ensures
            self@.dom().finite(),
    {
        proof {
            assert(self@.dom() =~= self.table.keys().to_set());
        }
    }

    /// The ids of the conversations with a model, ascending.
    pub fn ids(&self) -> (r: Vec<String>)
        ensures
            ascending(text::views(r@)),
            forall|id: Seq<char>| #[trigger]
                text::views(r@).contains(id) <==> self@.contains_key(id),
    {
        proof {
            use_type_invariant(self);
        }
        self.table.ids()
    }

    /// Whether there is a model for `id`.
    pub fn contains_key(&self, id: &str) -> (r: bool)
        ensures
            r == self@.contains_key(id@),
    {
        proof {
            use_type_invariant(self);
        }
        self.table.contains_key(id)
    }

    /// The model of `id`, if there is one.
    pub fn get(&self, id: &str) -> (r: Option<&ConversationModel>)
        ensures
            match r {
                Some(m) => self@.contains_key(id@) && m@ == self@[id@],
                None => !self@.contains_key(id@),
            },
    {
        proof {
            use_type_invariant(self);
        }
        self.table.get(id)
    }

    /// The model of `id` for modification, if there is one.
    pub fn get_mut(&mut self, id: &str) -> (r: Option<&mut ConversationModel>)
        ensures
            match r {
                Some(m) => {
                    &&& old(self)@.contains_key(id@)
                    &&& (*m)@ == old(self)@[id@]
                    &&& final(self)@ == old(self)@.insert(id@, (*final(m))@)
                },
                None => !old(self)@.contains_key(id@) && final(self)@ == old(self)@,
            },
    {
        proof {
            use_type_invariant(&*self);
        }
        let i: usize = self.table.position(id);
        if i < self.table.ids.len() && text::same(self.table.ids[i].as_str(), id) {
            proof {
                self.table.lemma_entry(i as int);
                self.table.lemma_updates(i as int);
            }
            Some(&mut self.table.models[i])
        } else {
            None
        }
    }

    /// The model of `id` for modification, made fresh when there is none.
    pub fn entry_or_default(&mut self, id: &str) -> (r: &mut ConversationModel)
        ensures
            (*r)@ == (if old(self)@.contains_key(id@) {
                old(self)@[id@]
            } else {
                fresh()
            }),
            final(self)@ == old(self)@.insert(id@, (*final(r))@),
    {
        proof {
            use_type_invariant(&*self);
        }
        let ghost before = self@;
        let mut table = Table::new();
        std::mem::swap(&mut table, &mut self.table);
        let i: usize = table.slot(id);
        self.table = table;
        proof {
            self.table.lemma_entry(i as int);
            self.table.lemma_updates(i as int);
            assert forall|m: ConversationV| #[trigger] before.insert(id@, m) == self@.insert(
                id@,
                m,
            ) by {
                assert(before.insert(id@, m) =~= self@.insert(id@, m));
            }
        }
        &mut self.table.models[i]
    }

    /// Drop the model of `id`, if there is one.
    pub fn remove(&mut self, id: &str)
        ensures
            final(self)@ == old(self)@.remove(id@),
    {
        proof {
            use_type_invariant(&*self);
        }
        let mut table = Table::new();
        std::mem::swap(&mut table, &mut self.table);
        table.remove(id);
        self.table = table;
    }

    /// The conversation that a stream event carrying `request_id` belongs to
    /// (see [`owner`]).
    pub fn owner_of(&self, request_id: &str) -> (r: Option<String>)
        ensures
            text::opt_view(r) == owner(self@, request_id@),
    {
        proof {
            use_type_invariant(self);
        }
        self.table.owner_of(request_id)
    }

    /// Whether any conversation has a reply in flight.
    pub fn any_streaming(&self) -> (r: bool)
        ensures
            r == some_streaming(self@),
    {
        proof {
            use_type_invariant(self);
        }
        self.table.any_streaming()
    }

    /// Drop every reply in flight, and hand them out with their conversations in
    /// ascending order of conversation.
    pub fn take_streams(&mut self) -> (r: Vec<(String, StreamState)>)
        ensures
            final(self)@ == without_streams(old(self)@),
            owned_streams(r@) == streams(old(self)@),
    {
        proof {
            use_type_invariant(&*self);
        }
        let mut table = Table::new();
        std::mem::swap(&mut table, &mut self.table);
        let streams = table.take_streams();
        self.table = table;
        streams
    }
}

} // verus!
