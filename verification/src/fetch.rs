//! The paginated catalog fetch, as a state machine the caller drives.
//!
//! The caller asks `next_request` for the page index to fetch, performs the
//! request, and hands the decoded page (or the transport/decode error) back
//! through `apply_page`. Pages are concatenated in the order received; the
//! first empty page finishes the fetch, and any error aborts it whole, with
//! no partial result.

use vstd::prelude::*;
use crate::catalog::{CatalogEntry, EntryModel, RawEntry, entry_of, flatten_entry};

verus! {

/// Where a fetch stands: still requesting pages, finished, or aborted.
pub enum FetchPhase {
    InProgress,
    Done,
    Failed(String),
}

/// The mathematical content of a `FetchPhase`.
#[verifier::ext_equal]
pub ghost enum FetchPhaseModel {
    InProgress,
    Done,
    Failed(Seq<char>),
}

impl View for FetchPhase {
    type V = FetchPhaseModel;

    open spec fn view(&self) -> FetchPhaseModel {
        match self {
            FetchPhase::InProgress => FetchPhaseModel::InProgress,
            FetchPhase::Done => FetchPhaseModel::Done,
            FetchPhase::Failed(e) => FetchPhaseModel::Failed(e@),
        }
    }
}

/// A running catalog fetch: the entries gathered so far and the next page
/// index to request.
pub struct CatalogFetch {
    pub entries: Vec<CatalogEntry>,
    pub next_index: u64,
    pub phase: FetchPhase,
}

/// The mathematical content of a `CatalogFetch`.
#[verifier::ext_equal]
pub ghost struct FetchModel {
    pub entries: Seq<EntryModel>,
    pub next_index: int,
    pub phase: FetchPhaseModel,
}

impl View for CatalogFetch {
    type V = FetchModel;

    open spec fn view(&self) -> FetchModel {
        FetchModel {
            entries: self.entries@.map_values(|e: CatalogEntry| e@),
            next_index: self.next_index as int,
            phase: self.phase@,
        }
    }
}

/// The flattened entries of one raw page, in page order.
pub open spec fn entries_of(page: Seq<RawEntry>) -> Seq<EntryModel> {
    page.map_values(|r: RawEntry| entry_of(r))
}

/// A fetch that has not yet requested any page.
pub open spec fn initial_fetch() -> FetchModel {
    FetchModel { entries: Seq::empty(), next_index: 0, phase: FetchPhaseModel::InProgress }
}

/// The page index a fetch asks for next, if it still asks for one.
pub open spec fn request_of(m: FetchModel) -> Option<int> {
    if m.phase is InProgress {
        Some(m.next_index)
    } else {
        None
    }
}

/// How one page response moves a fetch forward: an error aborts it, an
/// empty page finishes it, and a non-empty page is appended whole.
pub open spec fn apply_page_spec(m: FetchModel, page: Result<Seq<RawEntry>, Seq<char>>) -> FetchModel {
    match page {
        Result::Err(e) => FetchModel { phase: FetchPhaseModel::Failed(e), ..m },
        Result::Ok(raws) => if raws.len() == 0 {
            FetchModel { phase: FetchPhaseModel::Done, ..m }
        } else {
            FetchModel {
                entries: m.entries + entries_of(raws),
                next_index: m.next_index + 1,
                phase: FetchPhaseModel::InProgress,
            }
        },
    }
}

/// The view of one page response.
pub open spec fn page_view(page: Result<Vec<RawEntry>, String>) -> Result<Seq<RawEntry>, Seq<char>> {
    match page {
        Result::Ok(raws) => Result::Ok(raws@),
        Result::Err(e) => Result::Err(e@),
    }
}

impl CatalogFetch {
    /// Starts a fetch at page index 0 with nothing gathered.
    pub fn new() -> (m: Self)
        ensures
            m@ == initial_fetch(),
    {
        let m = CatalogFetch {
            entries: Vec::new(),
            next_index: 0,
            phase: FetchPhase::InProgress,
        };
        proof {
            assert(m@ =~~= initial_fetch());
        }
        m
    }

    /// The page index to request next; nothing once the fetch has stopped,
    /// so no request ever follows the first empty page or an error.
    pub fn next_request(&self) -> (r: Option<u64>)
        ensures
            self@.phase is InProgress ==> r == Some(self.next_index),
            !(self@.phase is InProgress) ==> r is None,
            r is Some <==> request_of(self@) is Some,
    {
        match &self.phase {
            FetchPhase::InProgress => Some(self.next_index),
            _ => None,
        }
    }

    /// Takes the response for the page at `next_index`.
    pub fn apply_page(&mut self, page: Result<Vec<RawEntry>, String>)
        requires
            old(self)@.phase is InProgress,
            old(self).next_index < u64::MAX,
        ensures
            final(self)@ == apply_page_spec(old(self)@, page_view(page)),
    {
        match page {
            Result::Err(e) => {
                self.phase = FetchPhase::Failed(e);
                proof {
                    assert(self@ =~~= apply_page_spec(old(self)@, page_view(page)));
                }
            },
            Result::Ok(raws) => {
                if raws.len() == 0 {
                    self.phase = FetchPhase::Done;
                    proof {
                        assert(self@ =~~= apply_page_spec(old(self)@, page_view(page)));
                    }
                } else {
                    let ghost before = self.entries@.map_values(|e: CatalogEntry| e@);
                    let mut i: usize = 0;
                    proof {
                        assert(before + entries_of(raws@.take(0)) =~= before);
                    }
                    while i < raws.len()
                        invariant
                            i <= raws@.len(),
                            self.entries@.map_values(|e: CatalogEntry| e@) == before + entries_of(
                                raws@.take(i as int),
                            ),
                            self.next_index == old(self).next_index,
                            self.phase == old(self).phase,
                        decreases raws@.len() - i,
                    {
                        let entry = flatten_entry(&raws[i]);
                        let ghost gathered = self.entries@;
                        self.entries.push(entry);
                        proof {
                            assert(raws@.take(i + 1).drop_last() =~= raws@.take(i as int));
                            assert(raws@.take(i + 1).last() == raws@[i as int]);
                            assert(entries_of(raws@.take(i + 1)) =~= entries_of(
                                raws@.take(i as int),
                            ).push(entry_of(raws@[i as int])));
                            assert(self.entries@ == gathered.push(entry));
                            assert(self.entries@.map_values(|e: CatalogEntry| e@)
                                =~= gathered.map_values(|e: CatalogEntry| e@).push(entry@));
                            assert(self.entries@.map_values(|e: CatalogEntry| e@) =~= (before
                                + entries_of(raws@.take(i + 1))));
                        }
                        i += 1;
                    }
                    self.next_index = self.next_index + 1;
                    proof {
                        assert(raws@.take(raws@.len() as int) =~= raws@);
                        assert(self@ =~~= apply_page_spec(old(self)@, page_view(page)));
                    }
                }
            },
        }
    }

    /// The whole catalog when the fetch finished, the one error when it
    /// aborted.
    pub fn into_result(self) -> (r: Result<Vec<CatalogEntry>, String>)
        requires
            !(self@.phase is InProgress),
        ensures
            self@.phase is Done ==> (r matches Result::Ok(entries) && entries@.map_values(
                |e: CatalogEntry| e@,
            ) == self@.entries),
            match self@.phase {
                FetchPhaseModel::Failed(e) => r matches Result::Err(msg) && msg@ == e,
                _ => true,
            },
    {
        match self.phase {
            FetchPhase::Done => Result::Ok(self.entries),
            FetchPhase::Failed(e) => Result::Err(e),
            FetchPhase::InProgress => vstd::pervasive::unreached(),
        }
    }
}

/// The fetch after the first `n` pages of `pages`, each taken as a
/// successful response.
pub open spec fn run_pages(pages: Seq<Seq<RawEntry>>, n: int) -> FetchModel
    decreases n,
{
    if n <= 0 {
        initial_fetch()
    } else {
        apply_page_spec(run_pages(pages, n - 1), Result::Ok(pages[n - 1]))
    }
}

/// The flattened entries of the first `n` pages, concatenated in order.
pub open spec fn entries_of_pages(pages: Seq<Seq<RawEntry>>, n: int) -> Seq<EntryModel>
    decreases n,
{
    if n <= 0 {
        Seq::empty()
    } else {
        entries_of_pages(pages, n - 1) + entries_of(pages[n - 1])
    }
}

proof fn lemma_run_pages_in_progress(pages: Seq<Seq<RawEntry>>, n: int)
    requires
        0 <= n <= pages.len(),
        forall|i: int| 0 <= i < n ==> (#[trigger] pages[i]).len() != 0,
    ensures
        run_pages(pages, n).phase is InProgress,
        run_pages(pages, n).next_index == n,
        run_pages(pages, n).entries == entries_of_pages(pages, n),
    decreases n,
{
    if n > 0 {
        lemma_run_pages_in_progress(pages, n - 1);
    }
}

/// Law: a fetch driven over `pages` requests pages 0 through `k` and no
/// further, where `k` is the index of the first empty page; it stops there
/// with exactly the entries of the pages before it, in order.
pub proof fn lemma_fetch_stops_at_first_empty_page(pages: Seq<Seq<RawEntry>>, k: int)
    requires
        0 <= k < pages.len(),
        pages[k].len() == 0,
        forall|i: int| 0 <= i < k ==> (#[trigger] pages[i]).len() != 0,
    ensures
        forall|j: int| 0 <= j <= k ==> request_of(#[trigger] run_pages(pages, j)) == Some(j),
        request_of(run_pages(pages, k + 1)) is None,
        run_pages(pages, k + 1).phase is Done,
        run_pages(pages, k + 1).entries == entries_of_pages(pages, k),
{
    assert forall|j: int| 0 <= j <= k implies request_of(#[trigger] run_pages(pages, j)) == Some(
        j,
    ) by {
        lemma_run_pages_in_progress(pages, j);
    }
    lemma_run_pages_in_progress(pages, k);
}

} // verus!
