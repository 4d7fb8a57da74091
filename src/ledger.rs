use vstd::prelude::*;

verus! {

/// What the ledger holds after `id` was offered to it: unchanged when `id`
/// is already there, otherwise `id` appended.
pub open spec fn record(seen: Seq<Seq<char>>, id: Seq<char>) -> Seq<Seq<char>> {
    if seen.contains(id) {
        seen
    } else {
        seen.push(id)
    }
}

/// The identities of contributors who were already announced, or who were
/// found in the history of the repository before announcing started.
/// Identities are kept in the order in which they were first recorded; none
/// is stored twice and none is ever removed.
#[derive(Debug)]
pub struct ContributorLedger {
    ids: Vec<String>,
}

impl View for ContributorLedger {
    type V = Seq<Seq<char>>;

    closed spec fn view(&self) -> Seq<Seq<char>> {
        self.ids@.map_values(|s: String| s@)
    }
}

/// The page of the history to fetch after `page`: the next one while the
/// feed reports more, none once it reports the last.
pub fn next_history_page(page: u32, has_next_page: bool) -> (r: Option<u32>)
    ensures
        r == (if has_next_page && page < u32::MAX {
            Some((page + 1) as u32)
        } else {
            None::<u32>
        }),
{
    if has_next_page && page < u32::MAX {
        Some(page + 1)
    } else {
        None
    }
}

/// Offering an identity twice: after the first offer it is recorded, so the
/// second offer finds it present and changes nothing. Together with
/// `record_if_new`, which reports an offer as new exactly when the identity
/// was absent, at most one of the two offers is reported new.
pub proof fn lemma_record_twice(seen: Seq<Seq<char>>, id: Seq<char>)
    ensures
        record(seen, id).contains(id),
        record(record(seen, id), id) == record(seen, id),
{
    if !seen.contains(id) {
        assert(seen.push(id)[seen.len() as int] == id);
    }
}

/// The ledger only grows: what was recorded stays recorded.
pub proof fn lemma_record_keeps(seen: Seq<Seq<char>>, id: Seq<char>, other: Seq<char>)
    ensures
        seen.contains(other) ==> record(seen, id).contains(other),
{
    if seen.contains(other) && !seen.contains(id) {
        let i = choose|i: int| 0 <= i < seen.len() && seen[i] == other;
        assert(seen.push(id)[i] == other);
    }
}

/// The identities recorded by offering each present entry of `page`, in order.
pub open spec fn record_page(seen: Seq<Seq<char>>, page: Seq<Option<String>>) -> Seq<Seq<char>>
    decreases page.len(),
{
    if page.len() == 0 {
        seen
    } else {
        let before = record_page(seen, page.drop_last());
        match page.last() {
            Some(id) => record(before, id@),
            None => before,
        }
    }
}

impl ContributorLedger {
    /// No identity is stored twice.
    #[verifier::type_invariant]
    closed spec fn inv(&self) -> bool {
        self@.no_duplicates()
    }

    /// An empty ledger.
    pub fn new() -> (r: Self)
        ensures
            r@ == Seq::<Seq<char>>::empty(),
    {
        let r = ContributorLedger { ids: Vec::new() };
        assert(r@ =~= Seq::<Seq<char>>::empty());
        r
    }

    /// Whether `id` is in the ledger.
    pub fn contains(&self, id: &str) -> (r: bool)
        ensures
            r == self@.contains(id@),
    {
        let mut i: usize = 0;
        while i < self.ids.len()
            invariant
                i <= self.ids.len(),
                forall|j: int| 0 <= j < i ==> self@[j] != id@,
            decreases self.ids.len() - i,
        {
            if crate::text::str_equal(self.ids[i].as_str(), id) {
                assert(self@[i as int] == id@);
                return true;
            }
            i = i + 1;
        }
        false
    }

    /// The number of identities in the ledger.
    pub fn len(&self) -> (r: usize)
        ensures
            r == self@.len(),
    {
        self.ids.len()
    }

    /// Inserts `id` unless it is already present, in one step. Returns
    /// whether it was absent: the sole sign that its owner is a first-time
    /// contributor.
    pub fn record_if_new(&mut self, id: String) -> (r: bool)
        ensures
            r == !old(self)@.contains(id@),
            final(self)@ == record(old(self)@, id@),
    {
        proof {
            use_type_invariant(&*self);
        }
        if self.contains(id.as_str()) {
            false
        } else {
            let ghost before = self@;
            let mut ids: Vec<String> = Vec::new();
            std::mem::swap(&mut self.ids, &mut ids);
            ids.push(id);
            assert(ids@.map_values(|s: String| s@) =~= before.push(id@));
            *self = ContributorLedger { ids };
            true
        }
    }

    /// Records the identities of one page of the repository's history, in
    /// order; an entry without an identity is passed over.
    pub fn seed(&mut self, page: &Vec<Option<String>>)
        ensures
            final(self)@ == record_page(old(self)@, page@),
    {
        let ghost start = self@;
        let mut i: usize = 0;
        while i < page.len()
            invariant
                i <= page.len(),
                self@ == record_page(start, page@.subrange(0, i as int)),
            decreases page.len() - i,
        {
            proof {
                assert(page@.subrange(0, i as int + 1).drop_last() =~= page@.subrange(0, i as int));
            }
            match &page[i] {
                Some(id) => {
                    self.record_if_new(id.clone());
                },
                None => {},
            }
            i = i + 1;
        }
        assert(page@.subrange(0, page@.len() as int) =~= page@);
    }
}

} // verus!
