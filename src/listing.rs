use vstd::prelude::*;

verus! {

/// The keys that a listing page names, in page order; entries without a key
/// are skipped.
pub open spec fn present_keys(page: Seq<Option<String>>) -> Seq<Seq<char>>
    decreases page.len(),
{
    if page.len() == 0 {
        seq![]
    } else {
        let rest = present_keys(page.drop_last());
        match page.last() {
            Some(k) => rest.push(k@),
            None => rest,
        }
    }
}

/// Keys gathered over the pages of a paginated listing.
pub struct Listing {
    keys: Vec<String>,
}

impl Listing {
    /// The keys gathered so far, in listing order.
    pub closed spec fn spec_keys(&self) -> Seq<Seq<char>> {
        self.keys@.map_values(|k: String| k@)
    }

    /// A listing with no page seen.
    pub fn new() -> (r: Listing)
        ensures
            r.spec_keys() == Seq::<Seq<char>>::empty(),
    {
        Listing { keys: Vec::new() }
    }

    /// Takes one page: its keys, and the continuation token it carries.
    /// Returns the token to ask the next page with, or `None` when the
    /// listing is complete.
    pub fn on_page(&mut self, page: Vec<Option<String>>, token: Option<String>) -> (r: Option<String>)
        ensures
            final(self).spec_keys() == old(self).spec_keys() + present_keys(page@),
            r == token,
    {
        let mut i: usize = 0;
        let ghost start = self.spec_keys();
        while i < page.len()
            invariant
                i <= page.len(),
                self.spec_keys() == start + present_keys(page@.take(i as int)),
            decreases page.len() - i,
        {
            let ghost t1 = page@.take(i as int + 1);
            proof {
                assert(t1.drop_last() =~= page@.take(i as int));
                assert(t1.last() == page@[i as int]);
            }
            let ghost before = self.spec_keys();
            match &page[i] {
                Some(k) => {
                    let kc = k.clone();
                    self.keys.push(kc);
                    proof {
                        assert(present_keys(t1) == present_keys(page@.take(i as int)).push(k@));
                        assert(self.spec_keys() =~= before.push(k@));
                        assert(self.spec_keys() =~= start + present_keys(t1));
                    }
                },
                None => {
                    proof {
                        assert(present_keys(t1) == present_keys(page@.take(i as int)));
                    }
                },
            }
            i = i + 1;
        }
        proof {
            assert(page@.take(page.len() as int) =~= page@);
        }
        token
    }

    /// Number of keys gathered.
    pub fn len(&self) -> (r: usize)
        ensures
            r == self.spec_keys().len(),
    {
        self.keys.len()
    }

    /// The keys gathered, in listing order.
    pub fn into_keys(self) -> (r: Vec<String>)
        ensures
            r@.map_values(|k: String| k@) == self.spec_keys(),
    {
        self.keys
    }
}

} // verus!
