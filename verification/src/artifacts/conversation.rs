//! The conversation artifact: the pull request's description and metadata,
//! then its comments, review submissions and inline comments merged into one
//! timeline ordered by time, rendered as Markdown.

use vstd::prelude::*;

use super::{Artifact, Produced};
use crate::context::{slug_of, ReviewContext};
use crate::gh::{IssueComment, PrInfo, Review, ReviewComment};
use crate::paths::{joined_path, path_join};
use crate::process::arg;
use vstd::seq_lib::lemma_concat_associative;

use crate::text::{
    chars_of, decimal, decimal_string, join, join_with, lemma_decimal_plain, lemma_lines_append,
    lemma_lines_cons, lemma_plain_concat, lines, plain_line, str_eq, trim, trimmed,
};

verus! {

// ---------------------------------------------------------------------------
// Events
// ---------------------------------------------------------------------------

/// What kind of entry a timeline event is.
#[derive(Debug)]
pub enum Kind {
    Comment,
    Review { state: String },
    Inline { path: String, line: Option<u64>, diff_hunk: String, is_reply: bool },
}

/// One entry of the timeline.
#[derive(Debug)]
pub struct Event {
    /// ISO-8601 UTC timestamp.
    pub time: String,
    pub author: String,
    pub url: String,
    pub kind: Kind,
    pub body: String,
}

/// A kind of event, with character sequences for strings.
pub enum KindView {
    Comment,
    Review { state: Seq<char> },
    Inline { path: Seq<char>, line: Option<u64>, diff_hunk: Seq<char>, is_reply: bool },
}

/// An event, with character sequences for strings.
pub struct EventView {
    pub time: Seq<char>,
    pub author: Seq<char>,
    pub url: Seq<char>,
    pub kind: KindView,
    pub body: Seq<char>,
}

impl View for Kind {
    type V = KindView;

    open spec fn view(&self) -> KindView {
        match self {
            Kind::Comment => KindView::Comment,
            Kind::Review { state } => KindView::Review { state: state@ },
            Kind::Inline { path, line, diff_hunk, is_reply } => KindView::Inline {
                path: path@,
                line: *line,
                diff_hunk: diff_hunk@,
                is_reply: *is_reply,
            },
        }
    }
}

impl View for Event {
    type V = EventView;

    open spec fn view(&self) -> EventView {
        EventView {
            time: self.time@,
            author: self.author@,
            url: self.url@,
            kind: self.kind@,
            body: self.body@,
        }
    }
}

/// The views of a list of events.
pub open spec fn events_view(v: Seq<Event>) -> Seq<EventView> {
    v.map_values(|e: Event| e@)
}

/// The event of a top-level comment.
pub open spec fn comment_event(c: IssueComment) -> EventView {
    EventView {
        time: c.created_at@,
        author: c.user.login@,
        url: c.html_url@,
        kind: KindView::Comment,
        body: c.body@,
    }
}

/// The event of a submitted review (pending reviews have none).
pub open spec fn review_event(r: Review) -> Option<EventView> {
    match r.submitted_at {
        Some(t) => Some(
            EventView {
                time: t@,
                author: r.user.login@,
                url: r.html_url@,
                kind: KindView::Review { state: r.state@ },
                body: r.body@,
            },
        ),
        None => None,
    }
}

/// The event of an inline comment: anchored at its line, or else at its
/// original line.
pub open spec fn inline_event(c: ReviewComment) -> EventView {
    EventView {
        time: c.created_at@,
        author: c.user.login@,
        url: c.html_url@,
        kind: KindView::Inline {
            path: c.path@,
            line: if c.line is Some {
                c.line
            } else {
                c.original_line
            },
            diff_hunk: c.diff_hunk@,
            is_reply: c.in_reply_to_id is Some,
        },
        body: c.body@,
    }
}

/// The events of top-level comments, in order.
pub open spec fn comment_events(cs: Seq<IssueComment>) -> Seq<EventView> {
    cs.map_values(|c: IssueComment| comment_event(c))
}

/// The events of submitted reviews, in order.
pub open spec fn review_events(rs: Seq<Review>) -> Seq<EventView>
    decreases rs.len(),
{
    if rs.len() == 0 {
        Seq::empty()
    } else {
        match review_event(rs.last()) {
            Some(e) => review_events(rs.drop_last()).push(e),
            None => review_events(rs.drop_last()),
        }
    }
}

/// The events of inline comments, in order.
pub open spec fn inline_events(cs: Seq<ReviewComment>) -> Seq<EventView> {
    cs.map_values(|c: ReviewComment| inline_event(c))
}

/// All events in the order they are gathered: comments, reviews, inline
/// comments.
pub open spec fn gathered(ics: Seq<IssueComment>, rs: Seq<Review>, rcs: Seq<ReviewComment>) -> Seq<EventView> {
    comment_events(ics) + review_events(rs) + inline_events(rcs)
}

// ---------------------------------------------------------------------------
// Ordering by time
// ---------------------------------------------------------------------------

/// Lexicographic order of character sequences, which for UTF-8 strings is the
/// byte order `String::cmp` uses; ISO-8601 UTC timestamps sort by it in time
/// order.
pub open spec fn seq_lt(a: Seq<char>, b: Seq<char>) -> bool
    decreases a.len(),
{
    if a.len() == 0 {
        b.len() > 0
    } else if b.len() == 0 {
        false
    } else if a[0] != b[0] {
        a[0] < b[0]
    } else {
        seq_lt(a.drop_first(), b.drop_first())
    }
}

/// `e` inserted into `s` after every event that is not later than it.
pub open spec fn insert_by_time(s: Seq<EventView>, e: EventView) -> Seq<EventView>
    decreases s.len(),
{
    if s.len() == 0 {
        seq![e]
    } else if !seq_lt(e.time, s.last().time) {
        s.push(e)
    } else {
        insert_by_time(s.drop_last(), e).push(s.last())
    }
}

/// `s` sorted by time, events with equal times keeping their order (what the
/// stable `sort_by` on the time gives).
pub open spec fn sort_by_time(s: Seq<EventView>) -> Seq<EventView>
    decreases s.len(),
{
    if s.len() == 0 {
        s
    } else {
        insert_by_time(sort_by_time(s.drop_last()), s.last())
    }
}

/// Whether `a` sorts strictly before `b`.
pub fn text_lt(a: &str, b: &str) -> (r: bool)
    ensures
        r == seq_lt(a@, b@),
{
    let x = chars_of(a);
    let y = chars_of(b);
    let mut i: usize = 0;
    assert(a@.skip(0) =~= a@);
    assert(b@.skip(0) =~= b@);
    while i < x.len() && i < y.len() && x[i] == y[i]
        invariant
            i <= x@.len() && i <= y@.len(),
            x@ == a@ && y@ == b@,
            seq_lt(a@, b@) == seq_lt(a@.skip(i as int), b@.skip(i as int)),
        decreases x@.len() - i,
    {
        assert(a@.skip(i as int).drop_first() =~= a@.skip(i + 1));
        assert(b@.skip(i as int).drop_first() =~= b@.skip(i + 1));
        i = i + 1;
    }
    if i == x.len() {
        i < y.len()
    } else if i == y.len() {
        false
    } else {
        x[i] < y[i]
    }
}

/// Insert `e` into the time-sorted `v` after every event not later than it.
fn insert_event(v: &mut Vec<Event>, e: Event)
    ensures
        events_view(final(v)@) == insert_by_time(events_view(old(v)@), e@),
{
    let ghost s = events_view(v@);
    let mut j = v.len();
    assert(s.take(j as int) =~= s);
    assert(s.skip(j as int) =~= Seq::<EventView>::empty());
    while j > 0 && text_lt(e.time.as_str(), v[j - 1].time.as_str())
        invariant
            j <= v@.len(),
            s == events_view(v@),
            insert_by_time(s, e@) =~= insert_by_time(s.take(j as int), e@) + s.skip(j as int),
        decreases j,
    {
        assert(s.take(j as int).drop_last() =~= s.take(j - 1));
        assert(s.take(j as int).last() == s[j - 1]);
        assert(s.skip(j - 1) =~= seq![s[j - 1]] + s.skip(j as int));
        j = j - 1;
    }
    if j > 0 {
        assert(s.take(j as int).last() == s[j - 1]);
    }
    assert(insert_by_time(s.take(j as int), e@) =~= s.take(j as int).push(e@));
    v.insert(j, e);
    assert(events_view(v@) =~= s.take(j as int).push(e@) + s.skip(j as int));
}

/// The timeline: every comment, submitted review and inline comment as an
/// event, sorted by time.
pub fn timeline(
    issue_comments: &Vec<IssueComment>,
    reviews: &Vec<Review>,
    review_comments: &Vec<ReviewComment>,
) -> (events: Vec<Event>)
    ensures
        events_view(events@) == sort_by_time(gathered(issue_comments@, reviews@, review_comments@)),
{
    let mut events: Vec<Event> = Vec::new();
    let ghost mut seen: Seq<EventView> = Seq::empty();
    let mut i: usize = 0;
    while i < issue_comments.len()
        invariant
            i <= issue_comments@.len(),
            seen == comment_events(issue_comments@.take(i as int)),
            events_view(events@) == sort_by_time(seen),
        decreases issue_comments@.len() - i,
    {
        let c = &issue_comments[i];
        let e = Event {
            time: c.created_at.clone(),
            author: c.user.login.clone(),
            url: c.html_url.clone(),
            kind: Kind::Comment,
            body: c.body.clone(),
        };
        assert(e@ == comment_event(issue_comments@[i as int]));
        insert_event(&mut events, e);
        proof {
            assert(seen.push(e@).drop_last() =~= seen);
            seen = seen.push(e@);
            assert(issue_comments@.take(i + 1) =~= issue_comments@.take(i as int).push(
                issue_comments@[i as int],
            ));
            assert(seen =~= comment_events(issue_comments@.take(i + 1)));
        }
        i = i + 1;
    }
    assert(issue_comments@.take(i as int) =~= issue_comments@);
    let ghost first = seen;
    let mut k: usize = 0;
    assert(reviews@.take(0) =~= Seq::<Review>::empty());
    assert(first + review_events(reviews@.take(0)) =~= first);
    while k < reviews.len()
        invariant
            k <= reviews@.len(),
            first == comment_events(issue_comments@),
            seen == first + review_events(reviews@.take(k as int)),
            events_view(events@) == sort_by_time(seen),
        decreases reviews@.len() - k,
    {
        let r = &reviews[k];
        assert(reviews@.take(k + 1).drop_last() =~= reviews@.take(k as int));
        assert(reviews@.take(k + 1).last() == reviews@[k as int]);
        match &r.submitted_at {
            Some(t) => {
                let e = Event {
                    time: t.clone(),
                    author: r.user.login.clone(),
                    url: r.html_url.clone(),
                    kind: Kind::Review { state: r.state.clone() },
                    body: r.body.clone(),
                };
                assert(review_event(reviews@[k as int]) == Some(e@));
                insert_event(&mut events, e);
                proof {
                    assert(seen.push(e@).drop_last() =~= seen);
                    seen = seen.push(e@);
                }
            },
            None => {},
        }
        k = k + 1;
    }
    assert(reviews@.take(k as int) =~= reviews@);
    let ghost second = seen;
    let mut m: usize = 0;
    assert(review_comments@.take(0) =~= Seq::<ReviewComment>::empty());
    assert(second + inline_events(review_comments@.take(0)) =~= second);
    while m < review_comments.len()
        invariant
            m <= review_comments@.len(),
            second == gathered(issue_comments@, reviews@, Seq::empty()),
            seen == second + inline_events(review_comments@.take(m as int)),
            events_view(events@) == sort_by_time(seen),
        decreases review_comments@.len() - m,
    {
        let c = &review_comments[m];
        let line = match c.line {
            Some(l) => Some(l),
            None => c.original_line,
        };
        let e = Event {
            time: c.created_at.clone(),
            author: c.user.login.clone(),
            url: c.html_url.clone(),
            kind: Kind::Inline {
                path: c.path.clone(),
                line,
                diff_hunk: c.diff_hunk.clone(),
                is_reply: c.in_reply_to_id.is_some(),
            },
            body: c.body.clone(),
        };
        assert(e@ == inline_event(review_comments@[m as int]));
        insert_event(&mut events, e);
        proof {
            assert(seen.push(e@).drop_last() =~= seen);
            seen = seen.push(e@);
            assert(review_comments@.take(m + 1) =~= review_comments@.take(m as int).push(
                review_comments@[m as int],
            ));
            assert(inline_events(review_comments@.take(m + 1)) =~= inline_events(
                review_comments@.take(m as int),
            ).push(e@));
            assert(seen =~= second + inline_events(review_comments@.take(m + 1)));
        }
        m = m + 1;
    }
    assert(review_comments@.take(m as int) =~= review_comments@);
    assert(seen =~= gathered(issue_comments@, reviews@, review_comments@));
    events
}

// ---------------------------------------------------------------------------
// Laws of the timeline order
// ---------------------------------------------------------------------------

/// No sequence sorts before itself.
pub proof fn lemma_seq_lt_irreflexive(a: Seq<char>)
    ensures
        !seq_lt(a, a),
    decreases a.len(),
{
    if a.len() > 0 {
        lemma_seq_lt_irreflexive(a.drop_first());
    }
}

/// The order is transitive.
pub proof fn lemma_seq_lt_transitive(a: Seq<char>, b: Seq<char>, c: Seq<char>)
    requires
        seq_lt(a, b),
        seq_lt(b, c),
    ensures
        seq_lt(a, c),
    decreases a.len(),
{
    if a.len() > 0 && a[0] == b[0] && b[0] == c[0] {
        lemma_seq_lt_transitive(a.drop_first(), b.drop_first(), c.drop_first());
    }
}

/// Of two different sequences, one sorts before the other.
pub proof fn lemma_seq_lt_total(a: Seq<char>, b: Seq<char>)
    ensures
        seq_lt(a, b) || seq_lt(b, a) || a == b,
    decreases a.len(),
{
    if a.len() == 0 && b.len() == 0 {
        assert(a =~= b);
    } else if a.len() > 0 && b.len() > 0 && a[0] == b[0] {
        lemma_seq_lt_total(a.drop_first(), b.drop_first());
        if a.drop_first() == b.drop_first() {
            assert forall|i: int| 0 <= i < a.len() implies a[i] == b[i] by {
                if i > 0 {
                    assert(a[i] == a.drop_first()[i - 1]);
                    assert(b[i] == b.drop_first()[i - 1]);
                }
            }
            assert(a.drop_first().len() == a.len() - 1);
            assert(b.drop_first().len() == b.len() - 1);
            assert(a =~= b);
        }
    }
}

/// Law: the timeline order is lexicographic, as `str`'s `Ord` is: after a
/// common prefix, the first differing character decides.
pub proof fn lemma_seq_lt_first_difference(p: Seq<char>, c1: char, c2: char, x: Seq<char>, y: Seq<char>)
    requires
        c1 < c2,
    ensures
        seq_lt(p + seq![c1] + x, p + seq![c2] + y),
        !seq_lt(p + seq![c2] + y, p + seq![c1] + x),
    decreases p.len(),
{
    let a = p + seq![c1] + x;
    let b = p + seq![c2] + y;
    if p.len() == 0 {
        assert(a[0] == c1);
        assert(b[0] == c2);
    } else {
        assert(a[0] == p[0]);
        assert(b[0] == p[0]);
        assert(a.drop_first() =~= p.drop_first() + seq![c1] + x);
        assert(b.drop_first() =~= p.drop_first() + seq![c2] + y);
        lemma_seq_lt_first_difference(p.drop_first(), c1, c2, x, y);
    }
}

/// Law: a proper prefix sorts before the longer text, and not after it.
pub proof fn lemma_seq_lt_proper_prefix(p: Seq<char>, c: char, y: Seq<char>)
    ensures
        seq_lt(p, p + seq![c] + y),
        !seq_lt(p + seq![c] + y, p),
    decreases p.len(),
{
    let b = p + seq![c] + y;
    if p.len() > 0 {
        assert(b[0] == p[0]);
        assert(b.drop_first() =~= p.drop_first() + seq![c] + y);
        lemma_seq_lt_proper_prefix(p.drop_first(), c, y);
    }
}

/// Law: an inline event is marked as a reply exactly when its comment
/// answers another one (`in_reply_to_id` is set), and is anchored at the
/// comment's path and line (its original line when the line is gone).
pub proof fn lemma_inline_reply_flag(cs: Seq<ReviewComment>)
    ensures
        inline_events(cs).len() == cs.len(),
        forall|i: int|
            0 <= i < cs.len() ==> match (#[trigger] inline_events(cs)[i]).kind {
                KindView::Inline { path, line, is_reply, .. } => {
                    &&& is_reply == (cs[i].in_reply_to_id is Some)
                    &&& path == cs[i].path@
                    &&& line == (match cs[i].line {
                        Some(l) => Some(l),
                        None => cs[i].original_line,
                    })
                },
                _ => false,
            },
{
}

/// `a` is not later than `b`.
pub open spec fn not_later(a: Seq<char>, b: Seq<char>) -> bool {
    !seq_lt(b, a)
}

/// "Not later than" is transitive.
pub proof fn lemma_not_later_transitive(a: Seq<char>, b: Seq<char>, c: Seq<char>)
    requires
        not_later(a, b),
        not_later(b, c),
    ensures
        not_later(a, c),
{
    if seq_lt(c, a) {
        lemma_seq_lt_total(a, b);
        lemma_seq_lt_total(b, c);
        if seq_lt(a, b) {
            lemma_seq_lt_transitive(c, a, b);
            if seq_lt(b, c) {
                lemma_seq_lt_transitive(b, c, b);
                lemma_seq_lt_irreflexive(b);
            }
        } else if a == b {
        } else {
            lemma_seq_lt_transitive(c, a, b);
        }
    }
}

/// Events ordered so that none is earlier than one before it.
pub open spec fn sorted_by_time(s: Seq<EventView>) -> bool {
    forall|i: int, j: int| 0 <= i < j < s.len() ==> not_later(s[i].time, s[j].time)
}

/// Inserting places `e` after the events not later than it and before the
/// later ones.
pub proof fn lemma_insert_shape(s: Seq<EventView>, e: EventView) -> (p: int)
    ensures
        0 <= p <= s.len(),
        insert_by_time(s, e) == s.take(p) + seq![e] + s.skip(p),
        forall|k: int| p <= k < s.len() ==> seq_lt(e.time, #[trigger] s[k].time),
        p > 0 ==> !seq_lt(e.time, s[p - 1].time),
    decreases s.len(),
{
    if s.len() == 0 {
        assert(insert_by_time(s, e) =~= s.take(0) + seq![e] + s.skip(0));
        0
    } else if !seq_lt(e.time, s.last().time) {
        assert(insert_by_time(s, e) =~= s.take(s.len() as int) + seq![e] + s.skip(s.len() as int));
        s.len() as int
    } else {
        let d = s.drop_last();
        let p = lemma_insert_shape(d, e);
        assert(insert_by_time(s, e) =~= s.take(p) + seq![e] + s.skip(p));
        assert forall|k: int| p <= k < s.len() implies seq_lt(e.time, #[trigger] s[k].time) by {
            if k < s.len() - 1 {
                assert(s[k] == d[k]);
            }
        }
        if p > 0 {
            assert(s[p - 1] == d[p - 1]);
        }
        p
    }
}

/// Inserting into a time-ordered list keeps it time-ordered and adds exactly
/// the one event.
pub proof fn lemma_insert_sorted(s: Seq<EventView>, e: EventView)
    requires
        sorted_by_time(s),
    ensures
        sorted_by_time(insert_by_time(s, e)),
        insert_by_time(s, e).to_multiset() == s.to_multiset().insert(e),
{
    let p = lemma_insert_shape(s, e);
    let r = insert_by_time(s, e);
    assert forall|i: int, j: int| 0 <= i < j < r.len() implies not_later(r[i].time, r[j].time) by {
        if j < p {
            assert(r[i] == s[i] && r[j] == s[j]);
        } else if i > p {
            assert(r[i] == s[i - 1] && r[j] == s[j - 1]);
        } else if i < p && j > p {
            assert(r[i] == s[i] && r[j] == s[j - 1]);
        } else if j == p {
            assert(r[j] == e && r[i] == s[i]);
            if i < p - 1 {
                assert(not_later(s[i].time, s[p - 1].time));
                lemma_not_later_transitive(s[i].time, s[p - 1].time, e.time);
            }
        } else {
            assert(i == p);
            assert(r[i] == e && r[j] == s[j - 1]);
            assert(seq_lt(e.time, s[j - 1].time));
            if seq_lt(s[j - 1].time, e.time) {
                lemma_seq_lt_transitive(e.time, s[j - 1].time, e.time);
                lemma_seq_lt_irreflexive(e.time);
            }
        }
    }
    let a = s.take(p);
    let b = s.skip(p);
    assert(a + b =~= s);
    assert(r =~= a.push(e) + b);
    vstd::seq_lib::lemma_multiset_commutative(a.push(e), b);
    vstd::seq_lib::lemma_multiset_commutative(a, b);
    a.to_multiset_ensures();
    assert(r.to_multiset() =~= s.to_multiset().insert(e)) by {
        broadcast use vstd::multiset::group_multiset_axioms;

    }
}

/// Law: the timeline is in time order (no event earlier than one before it)
/// and holds exactly the gathered events.
pub proof fn lemma_timeline_in_time_order(s: Seq<EventView>)
    ensures
        sorted_by_time(sort_by_time(s)),
        sort_by_time(s).to_multiset() == s.to_multiset(),
    decreases s.len(),
{
    if s.len() > 0 {
        let d = s.drop_last();
        lemma_timeline_in_time_order(d);
        lemma_insert_sorted(sort_by_time(d), s.last());
        d.to_multiset_ensures();
        assert(d.push(s.last()) =~= s);
    }
}

// ---------------------------------------------------------------------------
// Rendering
// ---------------------------------------------------------------------------

/// The marker shown before a review of the given state.
pub open spec fn marker_spec(state: Seq<char>) -> Seq<char> {
    if state == "APPROVED"@ {
        "✅"@
    } else if state == "CHANGES_REQUESTED"@ {
        "❌"@
    } else if state == "DISMISSED"@ {
        "🚫"@
    } else {
        "🗒️"@
    }
}

/// The marker shown before a review of the given state.
pub fn review_marker(state: &str) -> (m: &'static str)
    ensures
        m@ == marker_spec(state@),
{
    if str_eq(state, "APPROVED") {
        "✅"
    } else if str_eq(state, "CHANGES_REQUESTED") {
        "❌"
    } else if str_eq(state, "DISMISSED") {
        "🚫"
    } else {
        "🗒️"
    }
}

/// A text trimmed, or a placeholder when nothing remains.
pub open spec fn body_spec(body: Seq<char>) -> Seq<char> {
    if trimmed(body).len() == 0 {
        "_(no text)_"@
    } else {
        trimmed(body)
    }
}

/// Law: a body is never shown blank: it has text, or the placeholder.
pub proof fn lemma_body_never_blank(body: Seq<char>)
    ensures
        body_spec(body).len() > 0,
{
    reveal_strlit("_(no text)_");
}

/// `body` trimmed, or `_(no text)_` when it is blank.
pub fn body_or_placeholder(body: &str) -> (r: String)
    ensures
        r@ == body_spec(body@),
{
    let t = trim(body);
    if t.as_str().is_empty() {
        arg("_(no text)_")
    } else {
        t
    }
}

/// `" (draft)"` for a draft, else nothing.
pub open spec fn draft_spec(is_draft: bool) -> Seq<char> {
    if is_draft {
        " (draft)"@
    } else {
        ""@
    }
}

/// The mergeable line, when GitHub reported a mergeability.
pub open spec fn mergeable_spec(m: Seq<char>) -> Seq<char> {
    if m.len() > 0 {
        "- **Mergeable**: "@ + m + "\n"@
    } else {
        ""@
    }
}

/// The label names of `pr`.
pub open spec fn label_names(pr: PrInfo) -> Seq<Seq<char>> {
    pr.labels@.map_values(|l: crate::gh::Label| l.name@)
}

/// The labels line, when the pull request has labels.
pub open spec fn labels_spec(pr: PrInfo) -> Seq<char> {
    if pr.labels@.len() > 0 {
        "- **Labels**: "@ + join(label_names(pr), ", "@) + "\n"@
    } else {
        ""@
    }
}

/// The pull request's heading, metadata and description, up to the timeline.
pub open spec fn header_spec(ctx: ReviewContext) -> Seq<char> {
    let pr = ctx.pr_info;
    "# PR #"@ + decimal(pr.number as nat) + " — "@ + pr.title@ + "\n"@ + "\n"@ + "- **Repo**: "@
        + slug_of(ctx) + "\n"@ + "- **Author**: @"@ + pr.author.login@ + "\n"@ + "- **State**: "@
        + pr.state@ + draft_spec(pr.is_draft) + "\n"@ + "- **Base ← Head**: `"@ + pr.base_ref_name@
        + "` ← `"@ + pr.head_ref_name@ + "`\n"@ + mergeable_spec(pr.mergeable@)
        + "- **Changes**: +"@ + decimal(pr.additions as nat) + " / -"@ + decimal(
        pr.deletions as nat,
    ) + " across "@ + decimal(pr.changed_files as nat) + " file(s)\n"@ + labels_spec(pr)
        + "- **URL**: "@ + pr.url@ + "\n"@ + "- **Opened**: "@ + pr.created_at@ + "\n"@ + "\n"@
        + "## Description\n"@ + "\n"@ + body_spec(pr.body@) + "\n"@ + "\n"@ + "## Timeline\n"@
        + "\n"@
}

/// The conversation header is its first five lines followed by the rest.
#[verifier::rlimit(60)]
proof fn lemma_header_split(ctx: ReviewContext)
    ensures
        header_spec(ctx) == header_head(ctx) + header_spec(ctx).skip(header_head(ctx).len() as int),
{
    let pr = ctx.pr_info;
    let a = header_head(ctx);
    let t0 = "- **Base ← Head**: `"@;
    lemma_concat_associative(a, t0, pr.base_ref_name@);
    let t1 = t0 + pr.base_ref_name@;
    lemma_concat_associative(a, t1, "` ← `"@);
    let t2 = t1 + "` ← `"@;
    lemma_concat_associative(a, t2, pr.head_ref_name@);
    let t3 = t2 + pr.head_ref_name@;
    lemma_concat_associative(a, t3, "`\n"@);
    let t4 = t3 + "`\n"@;
    lemma_concat_associative(a, t4, mergeable_spec(pr.mergeable@));
    let t5 = t4 + mergeable_spec(pr.mergeable@);
    lemma_concat_associative(a, t5, "- **Changes**: +"@);
    let t6 = t5 + "- **Changes**: +"@;
    lemma_concat_associative(a, t6, decimal(pr.additions as nat));
    let t7 = t6 + decimal(pr.additions as nat);
    lemma_concat_associative(a, t7, " / -"@);
    let t8 = t7 + " / -"@;
    lemma_concat_associative(a, t8, decimal(pr.deletions as nat));
    let t9 = t8 + decimal(pr.deletions as nat);
    lemma_concat_associative(a, t9, " across "@);
    let t10 = t9 + " across "@;
    lemma_concat_associative(a, t10, decimal(pr.changed_files as nat));
    let t11 = t10 + decimal(pr.changed_files as nat);
    lemma_concat_associative(a, t11, " file(s)\n"@);
    let t12 = t11 + " file(s)\n"@;
    lemma_concat_associative(a, t12, labels_spec(pr));
    let t13 = t12 + labels_spec(pr);
    lemma_concat_associative(a, t13, "- **URL**: "@);
    let t14 = t13 + "- **URL**: "@;
    lemma_concat_associative(a, t14, pr.url@);
    let t15 = t14 + pr.url@;
    lemma_concat_associative(a, t15, "\n"@);
    let t16 = t15 + "\n"@;
    lemma_concat_associative(a, t16, "- **Opened**: "@);
    let t17 = t16 + "- **Opened**: "@;
    lemma_concat_associative(a, t17, pr.created_at@);
    let t18 = t17 + pr.created_at@;
    lemma_concat_associative(a, t18, "\n"@);
    let t19 = t18 + "\n"@;
    lemma_concat_associative(a, t19, "\n"@);
    let t20 = t19 + "\n"@;
    lemma_concat_associative(a, t20, "## Description\n"@);
    let t21 = t20 + "## Description\n"@;
    lemma_concat_associative(a, t21, "\n"@);
    let t22 = t21 + "\n"@;
    lemma_concat_associative(a, t22, body_spec(pr.body@));
    let t23 = t22 + body_spec(pr.body@);
    lemma_concat_associative(a, t23, "\n"@);
    let t24 = t23 + "\n"@;
    lemma_concat_associative(a, t24, "\n"@);
    let t25 = t24 + "\n"@;
    lemma_concat_associative(a, t25, "## Timeline\n"@);
    let t26 = t25 + "## Timeline\n"@;
    lemma_concat_associative(a, t26, "\n"@);
    let t27 = t26 + "\n"@;
    assert(header_spec(ctx) == a + t27);
    assert((a + t27).skip(a.len() as int) =~= t27);
}

/// The first five lines of the conversation header, up to the State line.
spec fn header_head(ctx: ReviewContext) -> Seq<char> {
    let pr = ctx.pr_info;
    "# PR #"@ + decimal(pr.number as nat) + " — "@ + pr.title@ + "\n"@ + "\n"@ + "- **Repo**: "@
        + slug_of(ctx) + "\n"@ + "- **Author**: @"@ + pr.author.login@ + "\n"@ + "- **State**: "@
        + pr.state@ + draft_spec(pr.is_draft) + "\n"@
}

/// Law: the fifth line of the conversation header is the State line, which
/// ends in ` (draft)` exactly when the pull request is a draft (when the
/// texts on the first lines hold no line breaks).
#[verifier::rlimit(60)]
pub proof fn lemma_header_state_line(ctx: ReviewContext)
    requires
        plain_line(ctx.pr_info.title@),
        plain_line(ctx.repo.owner@),
        plain_line(ctx.repo.repo@),
        plain_line(ctx.pr_info.author.login@),
        plain_line(ctx.pr_info.state@),
    ensures
        lines(header_spec(ctx)).len() > 4,
        lines(header_spec(ctx))[4] == (if ctx.pr_info.is_draft {
            "- **State**: "@ + ctx.pr_info.state@ + " (draft)"@
        } else {
            "- **State**: "@ + ctx.pr_info.state@
        }),
{
    reveal_strlit("# PR #");
    reveal_strlit(" — ");
    reveal_strlit("\n");
    reveal_strlit("- **Repo**: ");
    reveal_strlit("/");
    reveal_strlit("- **Author**: @");
    reveal_strlit("- **State**: ");
    reveal_strlit(" (draft)");
    reveal_strlit("");
    let pr = ctx.pr_info;
    lemma_decimal_plain(pr.number as nat);
    let e = Seq::<char>::empty();
    let l0 = "# PR #"@ + decimal(pr.number as nat) + " — "@ + pr.title@;
    lemma_plain_concat("# PR #"@, decimal(pr.number as nat));
    lemma_plain_concat("# PR #"@ + decimal(pr.number as nat), " — "@);
    lemma_plain_concat("# PR #"@ + decimal(pr.number as nat) + " — "@, pr.title@);
    let l2 = "- **Repo**: "@ + slug_of(ctx);
    lemma_plain_concat(ctx.repo.owner@, "/"@);
    lemma_plain_concat(ctx.repo.owner@ + "/"@, ctx.repo.repo@);
    lemma_plain_concat("- **Repo**: "@, slug_of(ctx));
    let l3 = "- **Author**: @"@ + pr.author.login@;
    lemma_plain_concat("- **Author**: @"@, pr.author.login@);
    let l4 = "- **State**: "@ + pr.state@ + draft_spec(pr.is_draft);
    lemma_plain_concat("- **State**: "@, pr.state@);
    lemma_plain_concat("- **State**: "@ + pr.state@, draft_spec(pr.is_draft));
    let a = header_head(ctx);
    let h = header_spec(ctx);
    lemma_header_split(ctx);
    let rest = h.skip(a.len() as int);
    assert(a.last() == '\n');
    lemma_lines_append(a, rest);
    assert(a =~= l0 + "\n"@ + (e + "\n"@ + (l2 + "\n"@ + (l3 + "\n"@ + (l4 + "\n"@ + e)))));
    lemma_lines_cons(l4, e);
    lemma_lines_cons(l3, l4 + "\n"@ + e);
    lemma_lines_cons(l2, l3 + "\n"@ + (l4 + "\n"@ + e));
    lemma_lines_cons(e, l2 + "\n"@ + (l3 + "\n"@ + (l4 + "\n"@ + e)));
    lemma_lines_cons(l0, e + "\n"@ + (l2 + "\n"@ + (l3 + "\n"@ + (l4 + "\n"@ + e))));
    assert(lines(e) =~= Seq::<Seq<char>>::empty());
    assert(lines(a) =~= seq![l0, e, l2, l3, l4]);
    assert(lines(h)[4] == l4);
    if !pr.is_draft {
        assert(l4 =~= "- **State**: "@ + pr.state@);
    }
}

/// Where an inline comment is anchored: `path:line`, or the path alone.
pub open spec fn location_spec(path: Seq<char>, line: Option<u64>) -> Seq<char> {
    match line {
        Some(l) => path + ":"@ + decimal(l as nat),
        None => path,
    }
}

/// The quoted diff hunk of an inline comment, when it has one.
pub open spec fn hunk_spec(h: Seq<char>) -> Seq<char> {
    if h.len() > 0 {
        "\n"@ + "```diff\n"@ + h + "\n"@ + "```\n"@
    } else {
        ""@
    }
}

/// The heading line of an event (and, for an inline comment, its hunk).
pub open spec fn heading_spec(ev: EventView) -> Seq<char> {
    match ev.kind {
        KindView::Comment => "### 💬 @"@ + ev.author + " — comment · "@ + ev.time + "\n"@,
        KindView::Review { state } => "### "@ + marker_spec(state) + " @"@ + ev.author
            + " — review ("@ + state + ") · "@ + ev.time + "\n"@,
        KindView::Inline { path, line, diff_hunk, is_reply } => "### 📝 @"@ + ev.author
            + " — inline on `"@ + location_spec(path, line) + "`"@ + (if is_reply {
            " (reply)"@
        } else {
            ""@
        }) + " · "@ + ev.time + "\n"@ + hunk_spec(diff_hunk),
    }
}

/// The link line of an event, when it has a URL.
pub open spec fn link_spec(url: Seq<char>) -> Seq<char> {
    if url.len() > 0 {
        "\n"@ + "<"@ + url + ">\n"@
    } else {
        ""@
    }
}

/// One event of the timeline, as Markdown.
pub open spec fn event_spec(ev: EventView) -> Seq<char> {
    heading_spec(ev) + "\n"@ + body_spec(ev.body) + "\n"@ + link_spec(ev.url) + "\n"@ + "---\n"@
        + "\n"@
}

/// The events of the timeline, in order, as Markdown.
pub open spec fn events_spec(evs: Seq<EventView>) -> Seq<char>
    decreases evs.len(),
{
    if evs.len() == 0 {
        Seq::empty()
    } else {
        events_spec(evs.drop_last()) + event_spec(evs.last())
    }
}

/// The whole conversation document.
pub open spec fn render_spec(ctx: ReviewContext, evs: Seq<EventView>) -> Seq<char> {
    header_spec(ctx) + if evs.len() == 0 {
        "_No comments or reviews yet._\n"@
    } else {
        events_spec(evs)
    }
}

/// The mergeable line, when GitHub reported a mergeability.
fn mergeable_line(m: &str) -> (r: String)
    ensures
        r@ == mergeable_spec(m@),
{
    if m.is_empty() {
        arg("")
    } else {
        let mut r = arg("- **Mergeable**: ");
        r.append(m);
        r.append("\n");
        r
    }
}

/// The labels line, when the pull request has labels.
fn labels_line(pr: &PrInfo) -> (r: String)
    ensures
        r@ == labels_spec(*pr),
{
    if pr.labels.len() == 0 {
        return arg("");
    }
    let mut names: Vec<String> = Vec::new();
    let mut i: usize = 0;
    while i < pr.labels.len()
        invariant
            i <= pr.labels@.len(),
            names.deep_view() =~= pr.labels@.take(i as int).map_values(
                |l: crate::gh::Label| l.name@,
            ),
        decreases pr.labels@.len() - i,
    {
        let ghost prev = names.deep_view();
        names.push(pr.labels[i].name.clone());
        assert(names.deep_view() =~= prev.push(pr.labels@[i as int].name@));
        assert(pr.labels@.take(i + 1) =~= pr.labels@.take(i as int).push(pr.labels@[i as int]));
        i = i + 1;
    }
    assert(pr.labels@.take(i as int) =~= pr.labels@);
    let joined = join_with(&names, ", ");
    let mut r = arg("- **Labels**: ");
    r.append(joined.as_str());
    r.append("\n");
    r
}

/// Appends the decimal notation of `n`.
fn append_decimal(out: &mut String, n: u64)
    ensures
        final(out)@ == old(out)@ + decimal(n as nat),
{
    let d = decimal_string(n);
    out.append(d.as_str());
}

/// The heading, metadata and description, up to the timeline.
pub fn render_header(ctx: &ReviewContext) -> (out: String)
    ensures
        out@ == header_spec(*ctx),
{
    let pr = &ctx.pr_info;
    let mut out = arg("# PR #");
    append_decimal(&mut out, pr.number);
    out.append(" — ");
    out.append(pr.title.as_str());
    out.append("\n");
    out.append("\n");
    out.append("- **Repo**: ");
    let slug = ctx.slug();
    out.append(slug.as_str());
    out.append("\n");
    out.append("- **Author**: @");
    out.append(pr.author.login.as_str());
    out.append("\n");
    out.append("- **State**: ");
    out.append(pr.state.as_str());
    out.append(
        if pr.is_draft {
            " (draft)"
        } else {
            ""
        },
    );
    out.append("\n");
    out.append("- **Base ← Head**: `");
    out.append(pr.base_ref_name.as_str());
    out.append("` ← `");
    out.append(pr.head_ref_name.as_str());
    out.append("`\n");
    let merge = mergeable_line(pr.mergeable.as_str());
    out.append(merge.as_str());
    out.append("- **Changes**: +");
    append_decimal(&mut out, pr.additions);
    out.append(" / -");
    append_decimal(&mut out, pr.deletions);
    out.append(" across ");
    append_decimal(&mut out, pr.changed_files);
    out.append(" file(s)\n");
    let labels = labels_line(pr);
    out.append(labels.as_str());
    out.append("- **URL**: ");
    out.append(pr.url.as_str());
    out.append("\n");
    out.append("- **Opened**: ");
    out.append(pr.created_at.as_str());
    out.append("\n");
    out.append("\n");
    out.append("## Description\n");
    out.append("\n");
    let body = body_or_placeholder(pr.body.as_str());
    out.append(body.as_str());
    out.append("\n");
    out.append("\n");
    out.append("## Timeline\n");
    out.append("\n");
    out
}

/// Where an inline comment is anchored.
fn location(path: &str, line: Option<u64>) -> (r: String)
    ensures
        r@ == location_spec(path@, line),
{
    let mut r = arg(path);
    if let Some(l) = line {
        r.append(":");
        append_decimal(&mut r, l);
    }
    r
}

/// The heading line of an event (and, for an inline comment, its hunk).
fn heading(ev: &Event) -> (r: String)
    ensures
        r@ == heading_spec(ev@),
{
    match &ev.kind {
        Kind::Comment => {
            let mut r = arg("### 💬 @");
            r.append(ev.author.as_str());
            r.append(" — comment · ");
            r.append(ev.time.as_str());
            r.append("\n");
            r
        },
        Kind::Review { state } => {
            let mut r = arg("### ");
            r.append(review_marker(state.as_str()));
            r.append(" @");
            r.append(ev.author.as_str());
            r.append(" — review (");
            r.append(state.as_str());
            r.append(") · ");
            r.append(ev.time.as_str());
            r.append("\n");
            r
        },
        Kind::Inline { path, line, diff_hunk, is_reply } => {
            let mut r = arg("### 📝 @");
            r.append(ev.author.as_str());
            r.append(" — inline on `");
            let loc = location(path.as_str(), *line);
            r.append(loc.as_str());
            r.append("`");
            r.append(
                if *is_reply {
                    " (reply)"
                } else {
                    ""
                },
            );
            r.append(" · ");
            r.append(ev.time.as_str());
            r.append("\n");
            if diff_hunk.as_str().is_empty() {
                r.append("");
            } else {
                let mut h = arg("\n");
                h.append("```diff\n");
                h.append(diff_hunk.as_str());
                h.append("\n");
                h.append("```\n");
                r.append(h.as_str());
            }
            r
        },
    }
}

/// One event of the timeline, as Markdown.
pub fn render_event(ev: &Event) -> (r: String)
    ensures
        r@ == event_spec(ev@),
{
    let mut r = heading(ev);
    r.append("\n");
    let body = body_or_placeholder(ev.body.as_str());
    r.append(body.as_str());
    r.append("\n");
    if ev.url.as_str().is_empty() {
        r.append("");
    } else {
        let mut link = arg("\n");
        link.append("<");
        link.append(ev.url.as_str());
        link.append(">\n");
        r.append(link.as_str());
    }
    r.append("\n");
    r.append("---\n");
    r.append("\n");
    r
}

/// The conversation document for `ctx` with the given timeline.
pub fn render(ctx: &ReviewContext, events: &Vec<Event>) -> (out: String)
    ensures
        out@ == render_spec(*ctx, events_view(events@)),
{
    let mut out = render_header(ctx);
    let ghost head = out@;
    if events.len() == 0 {
        out.append("_No comments or reviews yet._\n");
        return out;
    }
    let ghost evs = events_view(events@);
    let mut i: usize = 0;
    assert(evs.take(0) =~= Seq::<EventView>::empty());
    assert(head + events_spec(evs.take(0)) =~= head);
    while i < events.len()
        invariant
            i <= events@.len(),
            evs == events_view(events@),
            out@ == head + events_spec(evs.take(i as int)),
        decreases events@.len() - i,
    {
        let block = render_event(&events[i]);
        let ghost prev = out@;
        out.append(block.as_str());
        assert(evs.take(i + 1).drop_last() =~= evs.take(i as int));
        assert(evs.take(i + 1).last() == events@[i as int]@);
        assert(out@ =~= head + events_spec(evs.take(i + 1)));
        i = i + 1;
    }
    assert(evs.take(i as int) =~= evs);
    out
}

// ---------------------------------------------------------------------------
// The artifact
// ---------------------------------------------------------------------------

/// The chronological conversation of the pull request.
pub struct ConversationArtifact;

impl Artifact for ConversationArtifact {
    fn id(&self) -> (s: &'static str)
        ensures
            s@ == "conversation"@,
    {
        "conversation"
    }

    fn produced(&self, ctx: &ReviewContext) -> (p: Produced)
        ensures
            p.file@ == joined_path(ctx.layout.info@, "conversation.md"@),
            p.description@
                == "Chronological PR conversation: description, comments, reviews, and inline threads."@,
    {
        Produced {
            file: path_join(ctx.layout.info.as_str(), "conversation.md"),
            description: arg(
                "Chronological PR conversation: description, comments, reviews, and inline threads.",
            ),
        }
    }
}

impl ConversationArtifact {
    /// The conversation file for `ctx`, from the pull request's comments,
    /// reviews and inline comments: where it goes, with its description, and
    /// its Markdown.
    pub fn produce(
        &self,
        ctx: &ReviewContext,
        issue_comments: &Vec<IssueComment>,
        reviews: &Vec<Review>,
        review_comments: &Vec<ReviewComment>,
    ) -> (r: (Produced, String))
        ensures
            r.0.file@ == joined_path(ctx.layout.info@, "conversation.md"@),
            r.0.description@
                == "Chronological PR conversation: description, comments, reviews, and inline threads."@,
            r.1@ == render_spec(
                *ctx,
                sort_by_time(gathered(issue_comments@, reviews@, review_comments@)),
            ),
    {
        let events = timeline(issue_comments, reviews, review_comments);
        let markdown = render(ctx, &events);
        (self.produced(ctx), markdown)
    }
}

} // verus!
