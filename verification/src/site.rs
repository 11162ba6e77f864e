use std::collections::VecDeque;
use vstd::prelude::*;

verus! {

/// Fixed capacity of every site's outcome history.
pub const MAX_STATUSES: usize = 50;

/// One probe outcome: `None` while no probe has completed yet ("pending"),
/// `Some(Ok(code))` when the probe received an HTTP-style status code, and
/// `Some(Err(()))` when the probe failed (timeout, connection or transport
/// error).
pub type StatusCode = Option<Result<u16, ()>>;

/// The history that results from recording `code` on top of `h`
/// (most-recent-first): a full buffer first evicts its oldest (last) entry.
pub open spec fn pushed(h: Seq<StatusCode>, code: StatusCode) -> Seq<StatusCode> {
    if h.len() == MAX_STATUSES {
        seq![code] + h.drop_last()
    } else {
        seq![code] + h
    }
}

/// The history that results from recording every element of `codes` in
/// order (oldest first) on top of `h`.
pub open spec fn pushed_all(h: Seq<StatusCode>, codes: Seq<StatusCode>) -> Seq<StatusCode>
    decreases codes.len(),
{
    if codes.len() == 0 {
        h
    } else {
        pushed_all(pushed(h, codes.first()), codes.drop_first())
    }
}

/// The all-pending history a freshly created site starts with.
pub open spec fn initial_history() -> Seq<StatusCode> {
    Seq::new(MAX_STATUSES as nat, |i: int| None)
}

/// A named, addressed probe target together with its bounded history of
/// probe outcomes, most recent first.
#[derive(Debug)]
pub struct Site {
    pub name: String,
    pub url: String,
    status_codes: VecDeque<StatusCode>,
}

/// The mathematical model of a [`Site`]: its identity and its outcome
/// history, index 0 being the most recent outcome.
pub struct SiteView {
    pub name: Seq<char>,
    pub url: Seq<char>,
    pub history: Seq<StatusCode>,
}

impl View for Site {
    type V = SiteView;

    closed spec fn view(&self) -> SiteView {
        SiteView { name: self.name@, url: self.url@, history: self.status_codes@ }
    }
}

impl Site {
    /// The history never holds more than `MAX_STATUSES` outcomes.
    pub open spec fn wf(&self) -> bool {
        self@.history.len() <= MAX_STATUSES
    }

    /// The history holds exactly its capacity of outcomes, as every site
    /// this library builds does: it starts full of pending entries, and a
    /// push onto a full buffer evicts before inserting.
    pub open spec fn full(&self) -> bool {
        self@.history.len() == MAX_STATUSES
    }

    pub fn new(name: &str, addr: &str) -> (site: Site)
        ensures
            site@.name == name@,
            site@.url == addr@,
            site@.history == initial_history(),
            site.wf(),
            site.full(),
    {
        let mut status_codes: VecDeque<StatusCode> = VecDeque::new();
        let mut i: usize = 0;
        while i < MAX_STATUSES
            invariant
                i <= MAX_STATUSES,
                status_codes@.len() == i,
                forall|j: int| 0 <= j < i ==> status_codes@[j] is None,
            decreases MAX_STATUSES - i,
        {
            status_codes.push_back(None);
            i += 1;
        }
        proof {
            assert(status_codes@ =~= initial_history());
        }
        Site { name: name.to_owned(), url: addr.to_owned(), status_codes }
    }

    /// Record one more outcome at the front, evicting the oldest outcome
    /// first when the buffer is full.
    pub fn push_status_code(&mut self, code: StatusCode)
        ensures
            final(self)@.name == old(self)@.name,
            final(self)@.url == old(self)@.url,
            final(self)@.history == pushed(old(self)@.history, code),
            old(self).wf() ==> final(self).wf(),
            old(self).full() ==> final(self).full(),
    {
        if self.status_codes.len() == MAX_STATUSES {
            let _ = self.status_codes.pop_back();
        }
        self.status_codes.push_front(code);
        proof {
            assert(final(self)@.history =~= pushed(old(self)@.history, code));
        }
    }

    /// An independent copy of the current history, index 0 most recent.
    pub fn get_status_codes(&self) -> (r: VecDeque<StatusCode>)
        ensures
            r@ == self@.history,
    {
        let mut r: VecDeque<StatusCode> = VecDeque::new();
        let mut i: usize = 0;
        while i < self.status_codes.len()
            invariant
                i <= self.status_codes@.len(),
                r@ == self.status_codes@.take(i as int),
            decreases self.status_codes@.len() - i,
        {
            let code = self.status_codes[i];
            r.push_back(code);
            proof {
                assert(r@ =~= self.status_codes@.take(i + 1));
            }
            i += 1;
        }
        proof {
            assert(r@ =~= self.status_codes@);
        }
        r
    }
}

/// Law: starting from a history within capacity, recording any sequence of
/// outcomes keeps the history within capacity, and right after a push the
/// entry at index 0 is the outcome pushed last.
pub proof fn lemma_history_bounded(h: Seq<StatusCode>, codes: Seq<StatusCode>)
    requires
        h.len() <= MAX_STATUSES,
    ensures
        pushed_all(h, codes).len() <= MAX_STATUSES,
        codes.len() > 0 ==> pushed_all(h, codes)[0] == codes.last(),
    decreases codes.len(),
{
    if codes.len() > 0 {
        lemma_history_bounded(pushed(h, codes.first()), codes.drop_first());
        if codes.len() == 1 {
            assert(pushed_all(h, codes) == pushed(h, codes.first()));
        }
    }
}

/// Law: recording outcomes onto a full history keeps it exactly full; the
/// newest entries are the recorded outcomes in most-recent-first order, and
/// the remaining slots still hold the old entries, the oldest having been
/// evicted first.
pub proof fn lemma_push_sequence(h: Seq<StatusCode>, codes: Seq<StatusCode>)
    requires
        h.len() == MAX_STATUSES,
    ensures
        pushed_all(h, codes).len() == MAX_STATUSES,
        forall|i: int|
            0 <= i < MAX_STATUSES && i < codes.len() ==> pushed_all(h, codes)[i] == codes[codes.len()
                - 1 - i],
        forall|i: int|
            codes.len() <= i < MAX_STATUSES ==> pushed_all(h, codes)[i] == h[i - codes.len()],
    decreases codes.len(),
{
    if codes.len() > 0 {
        let h1 = pushed(h, codes.first());
        let rest = codes.drop_first();
        lemma_push_sequence(h1, rest);
        assert(pushed_all(h, codes) == pushed_all(h1, rest));
        assert forall|i: int| 0 <= i < MAX_STATUSES && i < codes.len() implies pushed_all(
            h,
            codes,
        )[i] == codes[codes.len() - 1 - i] by {
            if i < rest.len() {
                assert(rest[rest.len() - 1 - i] == codes[codes.len() - 1 - i]);
            } else {
                assert(pushed_all(h1, rest)[i] == h1[i - rest.len()]);
                assert(h1[0] == codes.first());
            }
        }
        assert forall|i: int| codes.len() <= i < MAX_STATUSES implies pushed_all(h, codes)[i] == h[i
            - codes.len()] by {
            assert(pushed_all(h1, rest)[i] == h1[i - rest.len()]);
            assert(h1[i - rest.len()] == h.drop_last()[i - rest.len() - 1]);
        }
    }
}

/// Law: recording `MAX_STATUSES + 1` outcomes onto a full history leaves
/// exactly the last `MAX_STATUSES` of them, most recent first.
pub proof fn lemma_full_turnover(h: Seq<StatusCode>, codes: Seq<StatusCode>)
    requires
        h.len() == MAX_STATUSES,
        codes.len() == MAX_STATUSES + 1,
    ensures
        pushed_all(h, codes).len() == MAX_STATUSES,
        forall|i: int|
            0 <= i < MAX_STATUSES ==> pushed_all(h, codes)[i] == codes[codes.len() - 1 - i],
{
    lemma_push_sequence(h, codes);
}

impl Clone for Site {
    /// A copy with the same name, url and history.
    fn clone(&self) -> (r: Site)
        ensures
            r@ == self@,
    {
        Site { name: self.name.clone(), url: self.url.clone(), status_codes: self.get_status_codes() }
    }
}

} // verus!
