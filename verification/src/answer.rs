//! Showing an answer while it streams in: every answer update carries the
//! whole answer so far, and only the part not shown yet is to be printed.

use vstd::prelude::*;

verus! {

/// The characters of `s` from position `begin` on; none when `begin` is past
/// the end.
pub open spec fn chars_from(s: Seq<char>, begin: nat) -> Seq<char> {
    if begin <= s.len() {
        s.subrange(begin as int, s.len() as int)
    } else {
        Seq::empty()
    }
}

/// Calls `utf8_slice::len`, which counts the characters of `s`.
#[verifier::external_body]
fn utf8_len(s: &str) -> (r: usize)
    ensures
        r == s@.len(),
{
    utf8_slice::len(s)
}

/// Calls `utf8_slice::from`, which gives the characters of `s` from
/// character position `begin` on, and an empty string when `begin` is past
/// the end.
#[verifier::external_body]
fn utf8_from(s: &str, begin: usize) -> (r: &str)
    ensures
        r@ == chars_from(s@, begin as nat),
{
    utf8_slice::from(s, begin)
}

/// One step of the stream: an empty update shows nothing; any other shows
/// its characters past those already shown, and then all of it counts as
/// shown.
pub open spec fn stream_step(shown: nat, answer: Seq<char>) -> (nat, Option<Seq<char>>) {
    if answer.len() == 0 {
        (shown, None)
    } else {
        (answer.len(), Some(chars_from(answer, shown)))
    }
}

/// How much of the answer is shown.
pub struct AnswerStream {
    shown: usize,
}

impl View for AnswerStream {
    type V = nat;

    closed spec fn view(&self) -> nat {
        self.shown as nat
    }
}

impl AnswerStream {
    /// A stream with nothing shown.
    pub fn new() -> (r: AnswerStream)
        ensures
            r@ == 0,
    {
        AnswerStream { shown: 0 }
    }

    /// Takes an answer update; gives the text to print, if any.
    pub fn on_text(&mut self, answer: &str) -> (r: Option<String>)
        ensures
            (final(self)@, match r {
                Some(s) => Some(s@),
                None => None,
            }) == stream_step(old(self)@, answer@),
            answer@.len() == 0 ==> r is None && final(self)@ == old(self)@,
            answer@.len() > 0 ==> final(self)@ == answer@.len() && (r matches Some(s) && s@
                == chars_from(answer@, old(self)@)),
    {
        if answer.is_empty() {
            None
        } else {
            let part = utf8_from(answer, self.shown).to_owned();
            self.shown = utf8_len(answer);
            Some(part)
        }
    }
}

/// The state of a stream after a run of updates: how much is shown, and all
/// that was printed.
pub open spec fn stream_run(answers: Seq<Seq<char>>) -> (nat, Seq<char>)
    decreases answers.len(),
{
    if answers.len() == 0 {
        (0, Seq::empty())
    } else {
        let (shown, printed) = stream_run(answers.drop_last());
        let (next, part) = stream_step(shown, answers.last());
        match part {
            Some(part) => (next, printed + part),
            None => (next, printed),
        }
    }
}

/// The last update of a run that is not empty (empty if none is).
pub open spec fn latest(answers: Seq<Seq<char>>) -> Seq<char>
    decreases answers.len(),
{
    if answers.len() == 0 {
        Seq::empty()
    } else if answers.last().len() == 0 {
        latest(answers.drop_last())
    } else {
        answers.last()
    }
}

/// Each update extends the ones before it (empty updates aside).
pub open spec fn grows(answers: Seq<Seq<char>>) -> bool {
    forall|i: int, j: int|
        #![trigger answers[i], answers[j]]
        0 <= i < j < answers.len() && answers[j].len() > 0 ==> answers[i].is_prefix_of(answers[j])
}

proof fn lemma_latest_is_prefix(answers: Seq<Seq<char>>, a: Seq<char>)
    requires
        forall|i: int| 0 <= i < answers.len() ==> #[trigger] answers[i].is_prefix_of(a),
    ensures
        latest(answers).is_prefix_of(a),
    decreases answers.len(),
{
    if answers.len() > 0 && answers.last().len() == 0 {
        let d = answers.drop_last();
        assert forall|i: int| 0 <= i < d.len() implies #[trigger] d[i].is_prefix_of(a) by {
            assert(d[i] == answers[i]);
        }
        lemma_latest_is_prefix(d, a);
    } else if answers.len() > 0 {
        assert(answers[answers.len() - 1].is_prefix_of(a));
    }
}

/// When each update extends the ones before it, what the stream prints is
/// exactly the latest answer: nothing is lost or printed twice.
pub proof fn lemma_stream_prints_latest(answers: Seq<Seq<char>>)
    requires
        grows(answers),
    ensures
        stream_run(answers).1 == latest(answers),
        stream_run(answers).0 == latest(answers).len(),
    decreases answers.len(),
{
    if answers.len() > 0 {
        let d = answers.drop_last();
        assert(grows(d)) by {
            assert forall|i: int, j: int|
                0 <= i < j < d.len() && d[j].len() > 0 implies d[i].is_prefix_of(d[j]) by {
                assert(d[i] == answers[i] && d[j] == answers[j]);
            }
        }
        lemma_stream_prints_latest(d);
        let a = answers.last();
        if a.len() > 0 {
            assert forall|i: int| 0 <= i < d.len() implies #[trigger] d[i].is_prefix_of(a) by {
                assert(d[i] == answers[i]);
                assert(answers[answers.len() - 1] == a);
            }
            lemma_latest_is_prefix(d, a);
            let l = latest(d);
            assert(l + a.subrange(l.len() as int, a.len() as int) =~= a);
        }
    }
}

/// What one update does to the stream: an empty update shows nothing and
/// changes nothing; any other counts all of its characters as shown, and
/// shows those past the ones shown before (nothing when it is shorter).
pub proof fn lemma_stream_step_counts(shown: nat, answer: Seq<char>)
    ensures
        answer.len() == 0 ==> stream_step(shown, answer) == (shown, None::<Seq<char>>),
        answer.len() > 0 ==> stream_step(shown, answer).0 == answer.len(),
        answer.len() > 0 && shown <= answer.len() ==> stream_step(shown, answer).1 == Some(
            answer.subrange(shown as int, answer.len() as int),
        ),
        answer.len() > 0 && shown > answer.len() ==> stream_step(shown, answer).1 == Some(
            Seq::<char>::empty(),
        ),
{
}

/// Two updates in a row, the second extending the first: the first shows
/// its characters past those already shown, the second exactly what it adds
/// to the first, and together they show the second from where the stream
/// stood.
pub proof fn lemma_stream_two_updates(shown: nat, p: Seq<char>, a: Seq<char>)
    requires
        p.len() > 0,
        shown <= p.len(),
        p.is_prefix_of(a),
    ensures
        ({
            let (s1, o1) = stream_step(shown, p);
            let (s2, o2) = stream_step(s1, a);
            &&& s1 == p.len()
            &&& s2 == a.len()
            &&& o1 == Some(p.subrange(shown as int, p.len() as int))
            &&& o2 == Some(a.subrange(p.len() as int, a.len() as int))
            &&& o1.unwrap() + o2.unwrap() == a.subrange(shown as int, a.len() as int)
        }),
{
    assert(p.subrange(shown as int, p.len() as int) + a.subrange(p.len() as int, a.len() as int)
        =~= a.subrange(shown as int, a.len() as int));
}

} // verus!
