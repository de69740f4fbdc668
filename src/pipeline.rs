//! The lookup pipeline: preparing each term's URL, turning a fetched page into
//! a result, and delivering results in the order the terms were given,
//! whatever order the fetches complete in.
use vstd::prelude::*;

use crate::selector::{extracted, Document, RealSelector, Selector};
use crate::text::fill_template;
use crate::word::{Delimiter, Word};
use wana_kana::ConvertJapanese;

verus! {

/// The kana transliteration of romanized Japanese text.
pub uninterp spec fn kana_of(s: Seq<char>) -> Seq<char>;

/// Relies on `wana_kana::ConvertJapanese::to_kana` for `&str`: the kana for the romaji in `s`,
/// a function of `s` alone; an empty input gives an empty output.
#[verifier::external_body]
fn to_kana(s: &str) -> (r: String)
    ensures
        r@ == kana_of(s@),
        s@.len() == 0 ==> r@.len() == 0,
{
    s.to_kana()
}

/// The term as it is sent: transliterated to kana when `japanese` is set.
pub open spec fn sent_term(term: Seq<char>, japanese: bool) -> Seq<char> {
    if japanese {
        kana_of(term)
    } else {
        term
    }
}

/// The term as it is sent: transliterated to kana when `japanese` is set.
pub fn prepare_term(term: &str, japanese: bool) -> (r: String)
    ensures
        r@ == sent_term(term@, japanese),
{
    if japanese {
        to_kana(term)
    } else {
        term.to_owned()
    }
}

/// The term to send for `term` and the URL to fetch for it with `profile`.
pub fn lookup_target(profile: &Selector, term: &str, japanese: bool) -> (r: (String, String))
    ensures
        r.0@ == sent_term(term@, japanese),
        r.1@ == fill_template(profile.url@, sent_term(term@, japanese)),
{
    let sent = prepare_term(term, japanese);
    let url = profile.url_for(sent.as_str());
    (sent, url)
}

/// The outcome of one lookup: the term, the URL fetched for it, and the
/// extracted record or the reason it failed.
#[derive(Debug)]
pub struct LookupResult {
    pub term: String,
    pub url: String,
    pub outcome: Result<Word, String>,
}

/// The result of looking `term` up at `url`, given the fetched page body or
/// the fetch's failure text: the record extracted from the page with the
/// compiled queries and the delimiters, or that failure.
pub fn finish_lookup(
    compiled: &RealSelector,
    delimiter: &Delimiter,
    term: String,
    url: String,
    body: Result<String, String>,
) -> (r: LookupResult)
    ensures
        r.term == term,
        r.url == url,
        match body {
            Ok(page) => r.outcome matches Ok(w) && w@ == extracted(
                page@,
                compiled@,
                term@,
                delimiter@,
            ),
            Err(e) => r.outcome == Err::<Word, String>(e),
        },
{
    let outcome = match body {
        Ok(page) => {
            let document = Document::parse(page.as_str());
            Ok(compiled.extract(&document, term.as_str(), delimiter))
        },
        Err(e) => Err(e),
    };
    LookupResult { term, url, outcome }
}

/// Results of lookups that complete in any order, handed out in the order of
/// their positions.
pub struct OrderedResults {
    slots: Vec<Option<LookupResult>>,
    next: usize,
    received: Ghost<Seq<Option<LookupResult>>>,
    emitted: Ghost<Seq<LookupResult>>,
}

impl OrderedResults {
    /// What each position has been completed with so far.
    pub closed spec fn received(&self) -> Seq<Option<LookupResult>> {
        self.received@
    }

    /// What has been handed out so far, in order.
    pub closed spec fn emitted(&self) -> Seq<LookupResult> {
        self.emitted@
    }

    /// The internal state agrees with what was received and handed out.
    pub closed spec fn wf(&self) -> bool {
        &&& self.slots@.len() == self.received@.len()
        &&& self.next <= self.slots@.len()
        &&& self.emitted@.len() == self.next
        &&& forall|i: int|
            0 <= i < self.next ==> #[trigger] self.received@[i] == Some(self.emitted@[i])
        &&& forall|i: int| 0 <= i < self.next ==> #[trigger] self.slots@[i] is None
        &&& forall|i: int|
            self.next <= i < self.slots@.len() ==> #[trigger] self.slots@[i] == self.received@[i]
    }

    /// Room for `n` results, none received yet.
    pub fn new(n: usize) -> (r: OrderedResults)
        ensures
            r.wf(),
            r.received() == Seq::new(n as nat, |i: int| None::<LookupResult>),
            r.emitted().len() == 0,
    {
        let mut slots: Vec<Option<LookupResult>> = Vec::new();
        let mut i: usize = 0;
        while i < n
            invariant
                i <= n,
                slots@ == Seq::new(i as nat, |k: int| None::<LookupResult>),
            decreases n - i,
        {
            slots.push(None);
            assert(slots@ =~= Seq::new((i + 1) as nat, |k: int| None::<LookupResult>));
            i = i + 1;
        }
        OrderedResults {
            slots,
            next: 0,
            received: Ghost(Seq::new(n as nat, |k: int| None::<LookupResult>)),
            emitted: Ghost(Seq::empty()),
        }
    }

    /// The number of positions.
    pub fn len(&self) -> (r: usize)
        requires
            self.wf(),
        ensures
            r == self.received().len(),
    {
        self.slots.len()
    }

    /// Whether every position has been handed out.
    pub fn is_finished(&self) -> (r: bool)
        requires
            self.wf(),
        ensures
            r == (self.emitted().len() == self.received().len()),
    {
        self.next == self.slots.len()
    }

    /// Records the result for position `index`. Refused, with nothing
    /// changed, when the position does not exist or already has a result.
    pub fn complete(&mut self, index: usize, result: LookupResult) -> (accepted: bool)
        requires
            old(self).wf(),
        ensures
            final(self).wf(),
            accepted == (index < old(self).received().len() && old(self).received()[index as int]
                is None),
            accepted ==> final(self).received() == old(self).received().update(
                index as int,
                Some(result),
            ),
            !accepted ==> final(self).received() == old(self).received(),
            final(self).emitted() == old(self).emitted(),
    {
        if index >= self.slots.len() {
            return false;
        }
        if index < self.next {
            assert(self.received@[index as int] == Some(self.emitted@[index as int]));
            return false;
        }
        if self.slots[index].is_some() {
            return false;
        }
        self.slots.set(index, Some(result));
        self.received = Ghost(self.received@.update(index as int, Some(result)));
        true
    }

    /// Hands out the result of the next position in order, if it has
    /// arrived; results of later positions wait until it has.
    pub fn pop_ready(&mut self) -> (r: Option<LookupResult>)
        requires
            old(self).wf(),
        ensures
            final(self).wf(),
            final(self).received() == old(self).received(),
            ({
                let k = old(self).emitted().len() as int;
                if k < old(self).received().len() && old(self).received()[k] is Some {
                    r == old(self).received()[k] && final(self).emitted() == old(
                        self,
                    ).emitted().push(r->0)
                } else {
                    r is None && final(self).emitted() == old(self).emitted()
                }
            }),
    {
        if self.next >= self.slots.len() {
            return None;
        }
        let k = self.next;
        let mut taken: Option<LookupResult> = None;
        std::mem::swap(&mut taken, &mut self.slots[k]);
        match taken {
            None => {
                None
            },
            Some(x) => {
                proof {
                    self.emitted@ = self.emitted@.push(x);
                }
                self.next = k + 1;
                Some(x)
            },
        }
    }
}

/// Results are handed out in the order of their positions: the `i`-th result
/// handed out is the one received for position `i`, whichever positions
/// completed first.
pub proof fn lemma_results_in_submission_order(q: &OrderedResults)
    requires
        q.wf(),
    ensures
        q.emitted().len() <= q.received().len(),
        forall|i: int| 0 <= i < q.emitted().len() ==> q.received()[i] == Some(q.emitted()[i]),
{
    assert forall|i: int| 0 <= i < q.emitted().len() implies q.received()[i] == Some(
        q.emitted()[i],
    ) by {
        assert(q.received@[i] == Some(q.emitted@[i]));
    }
}

} // verus!
