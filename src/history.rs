use vstd::prelude::*;

use crate::message::{ChatMessage, OutgoingChatMessage, OutgoingMessageState, Timestamp, UuidIdentifier};

verus! {

/// Entries are in ascending order of their timestamps.
pub open spec fn sorted_by_time(s: Seq<ChatMessage>) -> bool {
    forall|i: int, j: int| 0 <= i <= j < s.len() ==> s[i].time_of() <= s[j].time_of()
}

/// No two entries share a uuid.
pub open spec fn uuids_unique(s: Seq<ChatMessage>) -> bool {
    forall|i: int, j: int|
        0 <= i < s.len() && 0 <= j < s.len() && i != j ==> s[i].uuid_of() != s[j].uuid_of()
}

/// A conversation history: ordered by timestamp, one entry per uuid.
pub open spec fn history_wf(s: Seq<ChatMessage>) -> bool {
    sorted_by_time(s) && uuids_unique(s)
}

pub open spec fn has_uuid(s: Seq<ChatMessage>, u: UuidIdentifier) -> bool {
    exists|i: int| 0 <= i < s.len() && s[i].uuid_of() == u
}

/// The history after the acknowledgement `ack` arrives for each of `uuids`.
pub open spec fn acked_all(
    s: Seq<ChatMessage>,
    uuids: Seq<UuidIdentifier>,
    ack: OutgoingMessageState,
) -> Seq<ChatMessage> {
    s.map_values(
        |m: ChatMessage|
            if uuids.contains(m.uuid_of()) {
                m.acked(ack)
            } else {
                m
            },
    )
}

/// Where an entry with timestamp `t` goes in a sorted history: after every
/// entry that is not later than `t`.
pub open spec fn insert_pos(s: Seq<ChatMessage>, t: Timestamp) -> nat
    decreases s.len(),
{
    if s.len() == 0 {
        0
    } else if s.last().time_of() <= t {
        s.len()
    } else {
        insert_pos(s.drop_last(), t)
    }
}

/// The index of an entry with uuid `u`; with unique uuids, the one entry.
pub open spec fn uuid_index(s: Seq<ChatMessage>, u: UuidIdentifier) -> int {
    choose|i: int| 0 <= i < s.len() && s[i].uuid_of() == u
}

/// `s` with `m` placed by its timestamp.
pub open spec fn placed(s: Seq<ChatMessage>, m: ChatMessage) -> Seq<ChatMessage> {
    s.insert(insert_pos(s, m.time_of()) as int, m)
}

/// The history after one message `m` is merged into it. A uuid not yet held
/// is placed by its timestamp. Of two copies of one uuid exactly one
/// survives, whole: the one further along in delivery, and the one already
/// held on a tie. A copy that replaces the held one is placed by its own
/// timestamp.
pub open spec fn inserted(s: Seq<ChatMessage>, m: ChatMessage) -> Seq<ChatMessage> {
    if has_uuid(s, m.uuid_of()) {
        let j = uuid_index(s, m.uuid_of());
        if m.delivery_rank() > s[j].delivery_rank() {
            placed(s.remove(j), m)
        } else {
            s
        }
    } else {
        placed(s, m)
    }
}

/// The history after the messages of `page` are merged into it in turn.
pub open spec fn merged(s: Seq<ChatMessage>, page: Seq<ChatMessage>) -> Seq<ChatMessage>
    decreases page.len(),
{
    if page.len() == 0 {
        s
    } else {
        inserted(merged(s, page.drop_last()), page.last())
    }
}

proof fn lemma_insert_pos(s: Seq<ChatMessage>, t: Timestamp)
    requires
        sorted_by_time(s),
    ensures
        insert_pos(s, t) <= s.len(),
        forall|i: int| 0 <= i < insert_pos(s, t) ==> s[i].time_of() <= t,
        forall|i: int| insert_pos(s, t) <= i < s.len() ==> s[i].time_of() > t,
    decreases s.len(),
{
    if s.len() > 0 && s.last().time_of() > t {
        let d = s.drop_last();
        assert(sorted_by_time(d));
        lemma_insert_pos(d, t);
        assert forall|i: int| insert_pos(s, t) <= i < s.len() implies s[i].time_of() > t by {
            if i < d.len() {
                assert(d[i] == s[i]);
            }
        }
        assert forall|i: int| 0 <= i < insert_pos(s, t) implies s[i].time_of() <= t by {
            assert(d[i] == s[i]);
        }
    } else if s.len() > 0 {
        assert forall|i: int| 0 <= i < insert_pos(s, t) implies s[i].time_of() <= t by {
            assert(s[i].time_of() <= s[s.len() - 1].time_of());
        }
    }
}

proof fn lemma_acked_all(s: Seq<ChatMessage>, uuids: Seq<UuidIdentifier>, ack: OutgoingMessageState)
    ensures
        acked_all(s, uuids, ack).len() == s.len(),
        forall|i: int|
            0 <= i < s.len() ==> (#[trigger] acked_all(s, uuids, ack)[i]).uuid_of() == s[i].uuid_of()
                && acked_all(s, uuids, ack)[i].time_of() == s[i].time_of(),
        history_wf(s) ==> history_wf(acked_all(s, uuids, ack)),
{
}

proof fn lemma_placed(s: Seq<ChatMessage>, m: ChatMessage)
    requires
        history_wf(s),
        !has_uuid(s, m.uuid_of()),
    ensures
        history_wf(placed(s, m)),
        forall|u: UuidIdentifier|
            has_uuid(placed(s, m), u) <==> (has_uuid(s, u) || u == m.uuid_of()),
        forall|i: int|
            0 <= i < placed(s, m).len() ==> s.contains(#[trigger] placed(s, m)[i])
                || placed(s, m)[i] == m,
{
    let r = placed(s, m);
    let k = insert_pos(s, m.time_of()) as int;
    lemma_insert_pos(s, m.time_of());
    assert(r.len() == s.len() + 1);
    assert forall|i: int| 0 <= i < r.len() implies r[i] == (if i < k {
        s[i]
    } else if i == k {
        m
    } else {
        s[i - 1]
    }) by {}
    assert forall|i: int| 0 <= i < r.len() implies s.contains(#[trigger] r[i]) || r[i] == m by {
        if i < k {
            assert(s[i] == r[i]);
        } else if i > k {
            assert(s[i - 1] == r[i]);
        }
    }
    assert forall|i: int, j: int| 0 <= i <= j < r.len() implies r[i].time_of()
        <= r[j].time_of() by {
        if i < k && j > k {
            assert(s[j - 1].time_of() > m.time_of());
        }
    }
    assert forall|i: int, j: int|
        0 <= i < r.len() && 0 <= j < r.len() && i != j implies r[i].uuid_of()
        != r[j].uuid_of() by {
        if i == k {
            if j < k {
                assert(s[j].uuid_of() != m.uuid_of());
            } else {
                assert(s[j - 1].uuid_of() != m.uuid_of());
            }
        } else if j == k {
            if i < k {
                assert(s[i].uuid_of() != m.uuid_of());
            } else {
                assert(s[i - 1].uuid_of() != m.uuid_of());
            }
        }
    }
    assert forall|u: UuidIdentifier| has_uuid(r, u) <==> (has_uuid(s, u) || u == m.uuid_of()) by {
        if has_uuid(r, u) {
            let i = choose|i: int| 0 <= i < r.len() && r[i].uuid_of() == u;
            if i < k {
                assert(s[i].uuid_of() == u);
            } else if i > k {
                assert(s[i - 1].uuid_of() == u);
            }
        }
        if has_uuid(s, u) {
            let i = choose|i: int| 0 <= i < s.len() && s[i].uuid_of() == u;
            if i < k {
                assert(r[i].uuid_of() == u);
            } else {
                assert(r[i + 1].uuid_of() == u);
            }
        }
        if u == m.uuid_of() {
            assert(r[k].uuid_of() == u);
        }
    }
}

proof fn lemma_removed(s: Seq<ChatMessage>, j: int)
    requires
        history_wf(s),
        0 <= j < s.len(),
    ensures
        history_wf(s.remove(j)),
        forall|u: UuidIdentifier|
            has_uuid(s.remove(j), u) <==> (has_uuid(s, u) && u != s[j].uuid_of()),
        forall|i: int| 0 <= i < s.remove(j).len() ==> s.contains(#[trigger] s.remove(j)[i]),
{
    let r = s.remove(j);
    assert forall|i: int| 0 <= i < r.len() implies r[i] == (if i < j {
        s[i]
    } else {
        s[i + 1]
    }) by {}
    assert forall|i: int| 0 <= i < r.len() implies s.contains(#[trigger] r[i]) by {
        if i < j {
            assert(s[i] == r[i]);
        } else {
            assert(s[i + 1] == r[i]);
        }
    }
    assert forall|i: int, k: int| 0 <= i <= k < r.len() implies r[i].time_of()
        <= r[k].time_of() by {
        let a = if i < j {
            i
        } else {
            i + 1
        };
        let b = if k < j {
            k
        } else {
            k + 1
        };
        assert(r[i] == s[a] && r[k] == s[b]);
    }
    assert forall|i: int, k: int|
        0 <= i < r.len() && 0 <= k < r.len() && i != k implies r[i].uuid_of()
        != r[k].uuid_of() by {
        let a = if i < j {
            i
        } else {
            i + 1
        };
        let b = if k < j {
            k
        } else {
            k + 1
        };
        assert(r[i] == s[a] && r[k] == s[b]);
    }
    assert forall|u: UuidIdentifier| has_uuid(r, u) <==> (has_uuid(s, u) && u != s[j].uuid_of()) by {
        if has_uuid(r, u) {
            let i = choose|i: int| 0 <= i < r.len() && r[i].uuid_of() == u;
            let a = if i < j {
                i
            } else {
                i + 1
            };
            assert(s[a].uuid_of() == u);
        }
        if has_uuid(s, u) && u != s[j].uuid_of() {
            let i = choose|i: int| 0 <= i < s.len() && s[i].uuid_of() == u;
            if i < j {
                assert(r[i].uuid_of() == u);
            } else {
                assert(r[i - 1].uuid_of() == u);
            }
        }
    }
}

proof fn lemma_uuid_index(s: Seq<ChatMessage>, j: int)
    requires
        uuids_unique(s),
        0 <= j < s.len(),
    ensures
        uuid_index(s, s[j].uuid_of()) == j,
{
    let u = s[j].uuid_of();
    assert(has_uuid(s, u));
    let i = uuid_index(s, u);
    assert(0 <= i < s.len() && s[i].uuid_of() == u);
}

proof fn lemma_inserted(s: Seq<ChatMessage>, m: ChatMessage)
    requires
        history_wf(s),
    ensures
        history_wf(inserted(s, m)),
        forall|u: UuidIdentifier|
            has_uuid(inserted(s, m), u) <==> (has_uuid(s, u) || u == m.uuid_of()),
        forall|i: int|
            0 <= i < inserted(s, m).len() ==> s.contains(#[trigger] inserted(s, m)[i])
                || inserted(s, m)[i] == m,
        forall|i: int|
            0 <= i < inserted(s, m).len() && (#[trigger] inserted(s, m)[i]).uuid_of()
                == m.uuid_of() ==> inserted(s, m)[i].delivery_rank() >= m.delivery_rank(),
        forall|i: int, j: int|
            0 <= i < inserted(s, m).len() && 0 <= j < s.len() && (#[trigger] inserted(
                s,
                m,
            )[i]).uuid_of() == (#[trigger] s[j]).uuid_of() ==> inserted(s, m)[i].delivery_rank()
                >= s[j].delivery_rank(),
{
    let r = inserted(s, m);
    if has_uuid(s, m.uuid_of()) {
        let j = uuid_index(s, m.uuid_of());
        if m.delivery_rank() > s[j].delivery_rank() {
            let d = s.remove(j);
            lemma_removed(s, j);
            assert(!has_uuid(d, m.uuid_of()));
            lemma_placed(d, m);
            assert forall|u: UuidIdentifier| has_uuid(r, u) <==> (has_uuid(s, u) || u == m.uuid_of()) by {}
            assert forall|i: int| 0 <= i < r.len() implies s.contains(#[trigger] r[i]) || r[i] == m by {
                if r[i] != m {
                    assert(d.contains(r[i]));
                    let k = choose|k: int| 0 <= k < d.len() && d[k] == r[i];
                    assert(s.contains(d[k]));
                }
            }
            assert forall|i: int, k: int|
                0 <= i < r.len() && 0 <= k < s.len() && (#[trigger] r[i]).uuid_of() == (
                #[trigger] s[k]).uuid_of() implies r[i].delivery_rank() >= s[k].delivery_rank() by {
                if r[i] == m {
                    lemma_uuid_index(s, k);
                } else {
                    assert(d.contains(r[i]));
                    let a = choose|a: int| 0 <= a < d.len() && d[a] == r[i];
                    assert(s.contains(d[a]));
                    let b = choose|b: int| 0 <= b < s.len() && s[b] == d[a];
                    assert(s[b].uuid_of() == s[k].uuid_of());
                }
            }
            assert forall|i: int|
                0 <= i < r.len() && (#[trigger] r[i]).uuid_of() == m.uuid_of() implies r[i].delivery_rank()
                >= m.delivery_rank() by {
                if r[i] != m {
                    assert(d.contains(r[i]));
                    let a = choose|a: int| 0 <= a < d.len() && d[a] == r[i];
                    assert(d[a].uuid_of() == m.uuid_of());
                }
            }
        } else {
            assert forall|i: int| 0 <= i < r.len() implies s.contains(#[trigger] r[i]) || r[i] == m by {
                assert(s[i] == r[i]);
            }
            assert forall|i: int, k: int|
                0 <= i < r.len() && 0 <= k < s.len() && (#[trigger] r[i]).uuid_of() == (
                #[trigger] s[k]).uuid_of() implies r[i].delivery_rank() >= s[k].delivery_rank() by {
                assert(i == k);
            }
            assert forall|i: int|
                0 <= i < r.len() && (#[trigger] r[i]).uuid_of() == m.uuid_of() implies r[i].delivery_rank()
                >= m.delivery_rank() by {
                assert(s[j].uuid_of() == m.uuid_of());
                assert(i == j);
            }
        }
    } else {
        lemma_placed(s, m);
        let k = insert_pos(s, m.time_of()) as int;
        lemma_insert_pos(s, m.time_of());
        assert forall|i: int, a: int|
            0 <= i < r.len() && 0 <= a < s.len() && (#[trigger] r[i]).uuid_of() == (
            #[trigger] s[a]).uuid_of() implies r[i].delivery_rank() >= s[a].delivery_rank() by {
            if i < k {
                assert(r[i] == s[i]);
                assert(i == a);
            } else if i > k {
                assert(r[i] == s[i - 1]);
                assert(i - 1 == a);
            } else {
                assert(r[i] == m);
            }
        }
        assert forall|i: int|
            0 <= i < r.len() && (#[trigger] r[i]).uuid_of() == m.uuid_of() implies r[i].delivery_rank()
            >= m.delivery_rank() by {
            if i < k {
                assert(r[i] == s[i]);
            } else if i > k {
                assert(r[i] == s[i - 1]);
            }
        }
    }
}

/// Every message of `page` has an entry in `h`, and the entry with its uuid
/// is at least as far along in delivery.
pub open spec fn holds_page(h: Seq<ChatMessage>, page: Seq<ChatMessage>) -> bool {
    &&& forall|k: int| 0 <= k < page.len() ==> has_uuid(h, #[trigger] page[k].uuid_of())
    &&& forall|k: int, j: int|
        0 <= k < page.len() && 0 <= j < h.len() && #[trigger] h[j].uuid_of()
            == #[trigger] page[k].uuid_of() ==> h[j].delivery_rank() >= page[k].delivery_rank()
}

/// Every entry of `h` is, whole, an entry of `s` or a message of `page`.
pub open spec fn kept_whole(h: Seq<ChatMessage>, s: Seq<ChatMessage>, page: Seq<ChatMessage>) -> bool {
    forall|i: int| 0 <= i < h.len() ==> s.contains(#[trigger] h[i]) || page.contains(h[i])
}

/// What a merge guarantees: the history stays ordered with one entry per
/// uuid; it holds exactly the uuids of the old history and of the page; each
/// entry is, whole, an old entry or a page's copy; and no uuid of either side
/// ends at a lower delivery rank.
pub open spec fn merge_outcome(s: Seq<ChatMessage>, page: Seq<ChatMessage>, h: Seq<ChatMessage>) -> bool {
    &&& history_wf(h)
    &&& forall|u: UuidIdentifier| has_uuid(h, u) <==> (has_uuid(s, u) || has_uuid(page, u))
    &&& kept_whole(h, s, page)
    &&& holds_page(h, s)
    &&& holds_page(h, page)
}

proof fn lemma_inserted_holds(h: Seq<ChatMessage>, q: Seq<ChatMessage>, m: ChatMessage)
    requires
        history_wf(h),
        holds_page(h, q),
    ensures
        holds_page(inserted(h, m), q.push(m)),
{
    let r = inserted(h, m);
    let p = q.push(m);
    lemma_inserted(h, m);
    assert forall|k: int| 0 <= k < p.len() implies has_uuid(r, #[trigger] p[k].uuid_of()) by {
        if k < q.len() {
            assert(p[k] == q[k]);
        }
    }
    assert forall|k: int, j: int|
        0 <= k < p.len() && 0 <= j < r.len() && #[trigger] r[j].uuid_of()
            == #[trigger] p[k].uuid_of() implies r[j].delivery_rank() >= p[k].delivery_rank() by {
        if k < q.len() {
            assert(p[k] == q[k]);
            assert(has_uuid(h, q[k].uuid_of()));
            let a = choose|a: int| 0 <= a < h.len() && h[a].uuid_of() == q[k].uuid_of();
            assert(r[j].delivery_rank() >= h[a].delivery_rank());
        }
    }
}

proof fn lemma_holds_self(s: Seq<ChatMessage>)
    requires
        uuids_unique(s),
    ensures
        holds_page(s, s),
{
}

proof fn lemma_holds_parts(h: Seq<ChatMessage>, s: Seq<ChatMessage>, page: Seq<ChatMessage>)
    requires
        holds_page(h, s + page),
    ensures
        holds_page(h, s),
        holds_page(h, page),
{
    let a = s + page;
    assert forall|k: int| 0 <= k < s.len() implies has_uuid(h, #[trigger] s[k].uuid_of()) by {
        assert(a[k] == s[k]);
    }
    assert forall|k: int, j: int|
        0 <= k < s.len() && 0 <= j < h.len() && #[trigger] h[j].uuid_of()
            == #[trigger] s[k].uuid_of() implies h[j].delivery_rank() >= s[k].delivery_rank() by {
        assert(a[k] == s[k]);
    }
    assert forall|k: int| 0 <= k < page.len() implies has_uuid(h, #[trigger] page[k].uuid_of()) by {
        assert(a[s.len() + k] == page[k]);
    }
    assert forall|k: int, j: int|
        0 <= k < page.len() && 0 <= j < h.len() && #[trigger] h[j].uuid_of()
            == #[trigger] page[k].uuid_of() implies h[j].delivery_rank() >= page[k].delivery_rank() by {
        assert(a[s.len() + k] == page[k]);
    }
}

/// Merging a page into a well-formed history gives the outcome that
/// `merge_outcome` describes.
pub proof fn lemma_merged(s: Seq<ChatMessage>, page: Seq<ChatMessage>)
    requires
        history_wf(s),
    ensures
        merge_outcome(s, page, merged(s, page)),
    decreases page.len(),
{
    let h = merged(s, page);
    if page.len() == 0 {
        lemma_holds_self(s);
        assert(s + page =~= s);
        assert forall|i: int| 0 <= i < h.len() implies s.contains(#[trigger] h[i]) || page.contains(h[i]) by {
            assert(s[i] == h[i]);
        }
        assert forall|u: UuidIdentifier| has_uuid(h, u) <==> (has_uuid(s, u) || has_uuid(page, u)) by {}
    } else {
        let d = page.drop_last();
        let m = page.last();
        let g = merged(s, d);
        lemma_merged(s, d);
        lemma_inserted(g, m);
        assert(holds_page(g, s + d)) by {
            lemma_holds_self(s);
            let a = s + d;
            assert forall|k: int| 0 <= k < a.len() implies has_uuid(g, #[trigger] a[k].uuid_of()) by {
                if k < s.len() {
                    assert(a[k] == s[k]);
                } else {
                    assert(a[k] == d[k - s.len()]);
                }
            }
            assert forall|k: int, j: int|
                0 <= k < a.len() && 0 <= j < g.len() && #[trigger] g[j].uuid_of()
                    == #[trigger] a[k].uuid_of() implies g[j].delivery_rank() >= a[k].delivery_rank() by {
                if k < s.len() {
                    assert(a[k] == s[k]);
                } else {
                    assert(a[k] == d[k - s.len()]);
                }
            }
        }
        lemma_inserted_holds(g, s + d, m);
        assert((s + d).push(m) =~= s + page);
        lemma_holds_parts(h, s, page);
        assert forall|u: UuidIdentifier| has_uuid(h, u) <==> (has_uuid(s, u) || has_uuid(page, u)) by {
            if has_uuid(d, u) {
                let i = choose|i: int| 0 <= i < d.len() && d[i].uuid_of() == u;
                assert(page[i].uuid_of() == u);
            }
            if has_uuid(page, u) {
                let i = choose|i: int| 0 <= i < page.len() && page[i].uuid_of() == u;
                if i < d.len() {
                    assert(d[i].uuid_of() == u);
                }
            }
            if u == m.uuid_of() {
                assert(page[page.len() - 1].uuid_of() == u);
            }
        }
        assert forall|i: int| 0 <= i < h.len() implies s.contains(#[trigger] h[i]) || page.contains(h[i]) by {
            if h[i] == m {
                assert(page[page.len() - 1] == m);
            } else {
                assert(g.contains(h[i]));
                let a = choose|a: int| 0 <= a < g.len() && g[a] == h[i];
                if !s.contains(g[a]) {
                    assert(d.contains(g[a]));
                    let b = choose|b: int| 0 <= b < d.len() && d[b] == g[a];
                    assert(page[b] == d[b]);
                }
            }
        }
    }
}

fn contains_uuid(uuids: &Vec<UuidIdentifier>, u: UuidIdentifier) -> (r: bool)
    ensures
        r == uuids@.contains(u),
{
    let mut i: usize = 0;
    while i < uuids.len()
        invariant
            i <= uuids.len(),
            forall|k: int| 0 <= k < i ==> uuids@[k] != u,
        decreases uuids.len() - i,
    {
        if uuids[i] == u {
            return true;
        }
        i = i + 1;
    }
    false
}

/// The index of the entry with uuid `u`, if there is one.
pub fn find_uuid(messages: &Vec<ChatMessage>, u: UuidIdentifier) -> (r: Option<usize>)
    ensures
        match r {
            Some(j) => j < messages.len() && messages@[j as int].uuid_of() == u,
            None => !has_uuid(messages@, u),
        },
{
    let mut i: usize = 0;
    while i < messages.len()
        invariant
            i <= messages.len(),
            forall|k: int| 0 <= k < i ==> messages@[k].uuid_of() != u,
        decreases messages.len() - i,
    {
        if messages[i].uuid() == u {
            return Some(i);
        }
        i = i + 1;
    }
    None
}

/// Applies the acknowledgement `message_state` to every outgoing entry whose
/// uuid is among `message_uuids`; an entry's state only ever moves up.
pub fn change_outgoing_messages_state(
    messages: &mut Vec<ChatMessage>,
    message_uuids: &Vec<UuidIdentifier>,
    message_state: OutgoingMessageState,
)
    ensures
        final(messages)@ == acked_all(old(messages)@, message_uuids@, message_state),
        history_wf(old(messages)@) ==> history_wf(final(messages)@),
{
    let ghost start = messages@;
    proof {
        lemma_acked_all(start, message_uuids@, message_state);
    }
    let mut i: usize = 0;
    while i < messages.len()
        invariant
            messages.len() == start.len(),
            i <= messages.len(),
            forall|k: int|
                0 <= k < i ==> messages@[k] == acked_all(start, message_uuids@, message_state)[k],
            forall|k: int| i <= k < messages.len() ==> messages@[k] == start[k],
        decreases messages.len() - i,
    {
        let u = messages[i].uuid();
        if contains_uuid(message_uuids, u) {
            let m = messages.remove(i);
            let m = m.ack(message_state);
            messages.insert(i, m);
        }
        i = i + 1;
    }
    assert(messages@ =~= acked_all(start, message_uuids@, message_state));
}

fn place(messages: &mut Vec<ChatMessage>, message: ChatMessage)
    ensures
        final(messages)@ == placed(old(messages)@, message),
{
    let ghost start = messages@;
    let t = message.created_at();
    let mut k: usize = messages.len();
    assert(start.subrange(0, k as int) =~= start);
    while k > 0 && messages[k - 1].created_at() > t
        invariant
            messages@ == start,
            k <= messages.len(),
            insert_pos(start, t) == insert_pos(start.subrange(0, k as int), t),
        decreases k,
    {
        assert(start.subrange(0, k as int).drop_last() =~= start.subrange(0, k - 1 as int));
        k = k - 1;
    }
    assert(insert_pos(start, t) == k);
    messages.insert(k, message);
}

/// Merges one message into a history, keeping it ordered by timestamp with
/// one entry per uuid. Where the uuid is held already, only one copy stays,
/// whole: the one further along in delivery, the held one on a tie.
pub fn insert_message(messages: &mut Vec<ChatMessage>, message: ChatMessage)
    requires
        history_wf(old(messages)@),
    ensures
        final(messages)@ == inserted(old(messages)@, message),
        history_wf(final(messages)@),
{
    let ghost start = messages@;
    proof {
        lemma_inserted(start, message);
    }
    match find_uuid(messages, message.uuid()) {
        Some(j) => {
            proof {
                lemma_uuid_index(start, j as int);
            }
            if message.delivery_rank_of() > messages[j].delivery_rank_of() {
                let _replaced = messages.remove(j);
                place(messages, message);
            }
        },
        None => place(messages, message),
    }
}

/// Merges a fetched page into a history: every uuid of the page ends up in
/// it exactly once, ordered by timestamp. Of two copies of one uuid the one
/// further along in delivery stays whole, the held one on a tie; no copy is
/// made of fields of both.
pub fn merge_messages(messages: &mut Vec<ChatMessage>, page: Vec<ChatMessage>)
    requires
        history_wf(old(messages)@),
    ensures
        final(messages)@ == merged(old(messages)@, page@),
        merge_outcome(old(messages)@, page@, final(messages)@),
{
    let ghost start = messages@;
    let ghost all = page@;
    let mut rest = page;
    let n = rest.len();
    let mut i: usize = 0;
    assert(all.subrange(0, 0) =~= Seq::<ChatMessage>::empty());
    assert(rest@ =~= all.subrange(0, all.len() as int));
    while i < n
        invariant
            n == all.len(),
            i <= n,
            rest@ == all.subrange(i as int, n as int),
            messages@ == merged(start, all.subrange(0, i as int)),
            history_wf(messages@),
        decreases n - i,
    {
        let m = rest.remove(0);
        assert(all.subrange(0, i + 1 as int).drop_last() =~= all.subrange(0, i as int));
        insert_message(messages, m);
        assert(rest@ =~= all.subrange(i + 1 as int, n as int));
        i = i + 1;
    }
    assert(all.subrange(0, n as int) =~= all);
    proof {
        lemma_merged(start, all);
    }
}

/// The state of an outgoing message after the acknowledgements `acks`
/// arrive, in that order.
pub open spec fn after_acks(
    start: OutgoingMessageState,
    acks: Seq<OutgoingMessageState>,
) -> OutgoingMessageState
    decreases acks.len(),
{
    if acks.len() == 0 {
        start
    } else {
        after_acks(start, acks.drop_last()).upgraded(acks.last())
    }
}

/// However acknowledgements arrive, the state ends at the highest rank among
/// them and the starting state: it is at least each of them, and it is one
/// of them or the starting state.
pub proof fn lemma_acks_reach_highest(start: OutgoingMessageState, acks: Seq<OutgoingMessageState>)
    ensures
        after_acks(start, acks).rank() >= start.rank(),
        forall|k: int| 0 <= k < acks.len() ==> acks[k].rank() <= after_acks(start, acks).rank(),
        after_acks(start, acks) == start || acks.contains(after_acks(start, acks)),
    decreases acks.len(),
{
    if acks.len() > 0 {
        let d = acks.drop_last();
        lemma_acks_reach_highest(start, d);
        assert forall|k: int| 0 <= k < acks.len() implies acks[k].rank() <= after_acks(
            start,
            acks,
        ).rank() by {
            if k < d.len() {
                assert(d[k] == acks[k]);
            }
        }
        if after_acks(start, acks) != start {
            if after_acks(start, acks) == acks.last() {
                assert(acks[acks.len() - 1] == acks.last());
            } else {
                let x = after_acks(start, d);
                let k = choose|k: int| 0 <= k < d.len() && d[k] == x;
                assert(acks[k] == x);
            }
        }
    }
}

/// Acknowledgements arriving in any order, duplicates and late ones
/// included, leave an outgoing message in the same state.
pub proof fn lemma_acks_order_irrelevant(
    start: OutgoingMessageState,
    acks: Seq<OutgoingMessageState>,
    reordered: Seq<OutgoingMessageState>,
)
    requires
        acks.to_multiset() == reordered.to_multiset(),
    ensures
        after_acks(start, acks) == after_acks(start, reordered),
{
    broadcast use vstd::seq_lib::group_to_multiset_ensures;

    let a = after_acks(start, acks);
    let b = after_acks(start, reordered);
    lemma_acks_reach_highest(start, acks);
    lemma_acks_reach_highest(start, reordered);
    if a != start {
        assert(acks.to_multiset().count(a) > 0);
        assert(reordered.contains(a));
        let k = choose|k: int| 0 <= k < reordered.len() && reordered[k] == a;
        assert(a.rank() <= b.rank());
    }
    if b != start {
        assert(reordered.to_multiset().count(b) > 0);
        assert(acks.contains(b));
        let k = choose|k: int| 0 <= k < acks.len() && acks[k] == b;
        assert(b.rank() <= a.rank());
    }
}

/// Merging one page and then another, overlapping or not, leaves a history
/// ordered by timestamp that holds each uuid of the history and of both
/// pages exactly once.
pub proof fn lemma_merge_two_pages(s: Seq<ChatMessage>, first: Seq<ChatMessage>, second: Seq<ChatMessage>)
    requires
        history_wf(s),
    ensures
        sorted_by_time(merged(merged(s, first), second)),
        uuids_unique(merged(merged(s, first), second)),
        forall|u: UuidIdentifier|
            has_uuid(merged(merged(s, first), second), u) <==> (has_uuid(s, u) || has_uuid(first, u)
                || has_uuid(second, u)),
{
    lemma_merged(s, first);
    lemma_merged(merged(s, first), second);
}

proof fn lemma_merge_held(h: Seq<ChatMessage>, page: Seq<ChatMessage>)
    requires
        holds_page(h, page),
    ensures
        merged(h, page) == h,
    decreases page.len(),
{
    if page.len() > 0 {
        let d = page.drop_last();
        let m = page.last();
        assert(holds_page(h, d)) by {
            assert forall|k: int| 0 <= k < d.len() implies has_uuid(h, #[trigger] d[k].uuid_of()) by {
                assert(d[k] == page[k]);
            }
            assert forall|k: int, j: int|
                0 <= k < d.len() && 0 <= j < h.len() && #[trigger] h[j].uuid_of()
                    == #[trigger] d[k].uuid_of() implies h[j].delivery_rank() >= d[k].delivery_rank() by {
                assert(d[k] == page[k]);
            }
        }
        lemma_merge_held(h, d);
        assert(m == page[page.len() - 1]);
        assert(has_uuid(h, m.uuid_of()));
        let j = uuid_index(h, m.uuid_of());
        assert(h[j].delivery_rank() >= m.delivery_rank());
    }
}

/// Merging a page that was already merged changes nothing.
pub proof fn lemma_merge_idempotent(s: Seq<ChatMessage>, page: Seq<ChatMessage>)
    requires
        history_wf(s),
    ensures
        merged(merged(s, page), page) == merged(s, page),
{
    lemma_merged(s, page);
    lemma_merge_held(merged(s, page), page);
}

/// The history after acknowledgements for the uuid `u` arrive one by one,
/// in the order of `acks`.
pub open spec fn acked_in_turn(
    h: Seq<ChatMessage>,
    u: UuidIdentifier,
    acks: Seq<OutgoingMessageState>,
) -> Seq<ChatMessage>
    decreases acks.len(),
{
    if acks.len() == 0 {
        h
    } else {
        acked_all(acked_in_turn(h, u, acks.drop_last()), seq![u], acks.last())
    }
}

/// After acknowledgements for `u` arrive one by one, an outgoing entry with
/// uuid `u` is in the state that `after_acks` gives, and every other entry is
/// as it was.
pub proof fn lemma_acked_in_turn(h: Seq<ChatMessage>, u: UuidIdentifier, acks: Seq<OutgoingMessageState>)
    ensures
        acked_in_turn(h, u, acks).len() == h.len(),
        forall|j: int|
            0 <= j < h.len() ==> #[trigger] acked_in_turn(h, u, acks)[j] == match h[j] {
                ChatMessage::Outgoing(o) => if o.uuid == u {
                    ChatMessage::Outgoing(
                        OutgoingChatMessage {
                            user_id: o.user_id,
                            uuid: o.uuid,
                            content: o.content,
                            created_at: o.created_at,
                            state: after_acks(o.state, acks),
                        },
                    )
                } else {
                    h[j]
                },
                ChatMessage::Incoming(_) => h[j],
            },
    decreases acks.len(),
{
    if acks.len() > 0 {
        let d = acks.drop_last();
        lemma_acked_in_turn(h, u, d);
        let prev = acked_in_turn(h, u, d);
        assert forall|j: int| 0 <= j < h.len() implies #[trigger] acked_in_turn(h, u, acks)[j]
            == match h[j] {
            ChatMessage::Outgoing(o) => if o.uuid == u {
                ChatMessage::Outgoing(
                    OutgoingChatMessage {
                        user_id: o.user_id,
                        uuid: o.uuid,
                        content: o.content,
                        created_at: o.created_at,
                        state: after_acks(o.state, acks),
                    },
                )
            } else {
                h[j]
            },
            ChatMessage::Incoming(_) => h[j],
        } by {
            assert(prev[j].uuid_of() == h[j].uuid_of());
            assert(seq![u].contains(prev[j].uuid_of()) <==> prev[j].uuid_of() == u) by {
                if prev[j].uuid_of() == u {
                    assert(seq![u][0] == u);
                }
            }
        }
    }
}

/// Acknowledgements for one uuid that arrive in any order, duplicates and
/// late ones included, leave the whole history in the same state.
pub proof fn lemma_history_acks_order_irrelevant(
    h: Seq<ChatMessage>,
    u: UuidIdentifier,
    acks: Seq<OutgoingMessageState>,
    reordered: Seq<OutgoingMessageState>,
)
    requires
        acks.to_multiset() == reordered.to_multiset(),
    ensures
        acked_in_turn(h, u, acks) == acked_in_turn(h, u, reordered),
{
    lemma_acked_in_turn(h, u, acks);
    lemma_acked_in_turn(h, u, reordered);
    assert forall|j: int| 0 <= j < h.len() implies acked_in_turn(h, u, acks)[j] == acked_in_turn(
        h,
        u,
        reordered,
    )[j] by {
        if let ChatMessage::Outgoing(o) = h[j] {
            lemma_acks_order_irrelevant(o.state, acks, reordered);
        }
    }
    assert(acked_in_turn(h, u, acks) =~= acked_in_turn(h, u, reordered));
}

} // verus!
