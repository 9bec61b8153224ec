//! The list of affairs that are open for rental.
use crate::pda::{
    address_view, program_address, program_id, seed_affair_list, seed_affair_list_bytes,
    seeds_view, spec_program_id, try_find_program_address,
};
use crate::pubkey::Pubkey;
use crate::space::{pubkey_space, vec_space, DISCRIMINATOR_SPACE};
use vstd::prelude::*;

verus! {

/// Room in the list: the oldest entry makes way for a new one beyond this.
pub const MAX_AFFAIR_S: usize = 10;

/// The affairs open for rental, oldest first.
#[derive(Debug)]
pub struct AffairsList {
    pub active_affairs: Vec<Pubkey>,
}

/// The list after `affair` is registered: when it holds `MAX_AFFAIR_S` or more
/// entries the oldest leaves, then `affair` goes to the end.
pub open spec fn registered(list: Seq<Pubkey>, affair: Pubkey) -> Seq<Pubkey> {
    if list.len() >= MAX_AFFAIR_S {
        list.drop_first().push(affair)
    } else {
        list.push(affair)
    }
}

/// The list without any entry for `affair`, the others in their order.
pub open spec fn removed(list: Seq<Pubkey>, affair: Pubkey) -> Seq<Pubkey> {
    list.filter(|k: Pubkey| k@ != affair@)
}

/// Bytes of the list's fields.
pub open spec fn affairs_list_init_space() -> nat {
    vec_space(MAX_AFFAIR_S as nat, pubkey_space())
}

impl Default for AffairsList {
    fn default() -> (l: AffairsList)
        ensures
            l.active_affairs@ == Seq::<Pubkey>::empty(),
    {
        AffairsList { active_affairs: Vec::new() }
    }
}

/// Filtering a sequence extended by one element.
pub proof fn lemma_filter_push(s: Seq<Pubkey>, pred: spec_fn(Pubkey) -> bool, e: Pubkey)
    ensures
        pred(e) ==> s.push(e).filter(pred) == s.filter(pred).push(e),
        !pred(e) ==> s.push(e).filter(pred) == s.filter(pred),
{
    reveal(Seq::filter);
    assert(s.push(e).drop_last() =~= s);
}

impl AffairsList {
    /// Bytes that the list account takes: the discriminator and room for
    /// `MAX_AFFAIR_S` addresses.
    pub fn size() -> (s: usize)
        ensures
            s == DISCRIMINATOR_SPACE + affairs_list_init_space(),
    {
        DISCRIMINATOR_SPACE + 324
    }

    /// The address of the list account, with its bump seed.
    pub fn pda() -> (r: Option<(Pubkey, u8)>)
        ensures
            address_view(r) == program_address(seq![seed_affair_list()], spec_program_id()),
    {
        let mut seeds: Vec<Vec<u8>> = Vec::new();
        seeds.push(seed_affair_list_bytes());
        let id = program_id();
        assert(seeds_view(seeds@) =~= seq![seed_affair_list()]);
        try_find_program_address(&seeds, &id)
    }

    /// Appends `affair`, first dropping the oldest entry when the list is full.
    pub fn register_affair(&mut self, affair: Pubkey)
        ensures
            final(self).active_affairs@ == registered(old(self).active_affairs@, affair),
    {
        if self.active_affairs.len() >= MAX_AFFAIR_S {
            self.active_affairs.remove(0);
        }
        self.active_affairs.push(affair);
    }

    /// Takes every entry for `affair` out of the list, keeping the others in order.
    pub fn remove_affair(&mut self, affair: Pubkey)
        ensures
            final(self).active_affairs@ == removed(old(self).active_affairs@, affair),
    {
        let ghost pred = |k: Pubkey| k@ != affair@;
        let mut kept: Vec<Pubkey> = Vec::new();
        let n = self.active_affairs.len();
        let mut i: usize = 0;
        while i < n
            invariant
                n == self.active_affairs@.len(),
                i <= n,
                pred == (|k: Pubkey| k@ != affair@),
                kept@ == self.active_affairs@.take(i as int).filter(pred),
            decreases n - i,
        {
            let k = self.active_affairs[i];
            proof {
                lemma_filter_push(self.active_affairs@.take(i as int), pred, k);
                assert(self.active_affairs@.take(i as int).push(k) =~= self.active_affairs@.take(
                    i + 1,
                ));
            }
            let same = k.key_eq(&affair);
            if !same {
                kept.push(k);
            }
            i = i + 1;
        }
        proof {
            assert(self.active_affairs@.take(n as int) =~= self.active_affairs@);
        }
        self.active_affairs = kept;
    }
}

/// A list that holds at most `MAX_AFFAIR_S` entries still does after a
/// registration; the new affair is its newest entry, and below the limit the
/// older entries stay in their order.
pub proof fn law_affair_list_bounded(list: Seq<Pubkey>, affair: Pubkey)
    requires
        list.len() <= MAX_AFFAIR_S,
    ensures
        registered(list, affair).len() <= MAX_AFFAIR_S,
        registered(list, affair).last() == affair,
        list.len() < MAX_AFFAIR_S ==> registered(list, affair).drop_last() == list,
{
    if list.len() >= MAX_AFFAIR_S {
        assert(list.drop_first().push(affair).drop_last() =~= list.drop_first());
    } else {
        assert(list.push(affair).drop_last() =~= list);
    }
}

/// After an affair is removed no entry for it is left, and every entry that is
/// left was in the list before.
pub proof fn law_removed_affair_absent(list: Seq<Pubkey>, affair: Pubkey)
    ensures
        forall|i: int| 0 <= i < removed(list, affair).len() ==> #[trigger] removed(list, affair)[i]@ != affair@,
        forall|k: Pubkey| removed(list, affair).contains(k) ==> list.contains(k),
    decreases list.len(),
{
    reveal(Seq::filter);
    if list.len() > 0 {
        law_removed_affair_absent(list.drop_last(), affair);
        lemma_filter_push(list.drop_last(), |k: Pubkey| k@ != affair@, list.last());
        assert(list.drop_last().push(list.last()) =~= list);
        assert forall|k: Pubkey| removed(list, affair).contains(k) implies list.contains(k) by {
            let j = choose|j: int| 0 <= j < removed(list, affair).len() && removed(list, affair)[j] == k;
            if j < removed(list.drop_last(), affair).len() {
                assert(removed(list.drop_last(), affair).contains(k));
                assert(list.drop_last().contains(k));
                let m = choose|m: int| 0 <= m < list.drop_last().len() && list.drop_last()[m] == k;
                assert(list[m] == k);
            } else {
                assert(list[list.len() - 1] == k);
            }
        }
    }
}

/// Removing an affair keeps every other entry, in order, and only drops entries
/// for that affair: removal from an empty list gives an empty list, and
/// removal from a list extended by one entry is removal from the list, extended
/// by that entry unless it is the removed affair.
pub proof fn law_remove_keeps_others(list: Seq<Pubkey>, x: Pubkey, affair: Pubkey)
    ensures
        removed(Seq::<Pubkey>::empty(), affair) == Seq::<Pubkey>::empty(),
        x@ != affair@ ==> removed(list.push(x), affair) == removed(list, affair).push(x),
        x@ == affair@ ==> removed(list.push(x), affair) == removed(list, affair),
{
    reveal(Seq::filter);
    assert(Seq::<Pubkey>::empty().filter(|k: Pubkey| k@ != affair@) =~= Seq::<Pubkey>::empty());
    lemma_filter_push(list, |k: Pubkey| k@ != affair@, x);
}

/// A list with no entry for an affair is unchanged by removing it.
pub proof fn law_remove_absent_unchanged(list: Seq<Pubkey>, affair: Pubkey)
    requires
        forall|i: int| 0 <= i < list.len() ==> #[trigger] list[i]@ != affair@,
    ensures
        removed(list, affair) == list,
    decreases list.len(),
{
    if list.len() == 0 {
        law_remove_keeps_others(list, affair, affair);
        assert(list =~= Seq::<Pubkey>::empty());
    } else {
        let init = list.drop_last();
        assert forall|i: int| 0 <= i < init.len() implies #[trigger] init[i]@ != affair@ by {
            assert(init[i] == list[i]);
        }
        law_remove_absent_unchanged(init, affair);
        assert(list[list.len() - 1]@ != affair@);
        law_remove_keeps_others(init, list.last(), affair);
        assert(init.push(list.last()) =~= list);
    }
}

/// Registering an affair and then removing it leaves no entry for it.
pub proof fn law_register_then_remove(list: Seq<Pubkey>, affair: Pubkey)
    ensures
        !removed(registered(list, affair), affair).contains(affair),
{
    law_removed_affair_absent(registered(list, affair), affair);
    if removed(registered(list, affair), affair).contains(affair) {
        let j = choose|j: int| 0 <= j < removed(registered(list, affair), affair).len()
            && removed(registered(list, affair), affair)[j] == affair;
        assert(removed(registered(list, affair), affair)[j]@ != affair@);
    }
}

} // verus!
