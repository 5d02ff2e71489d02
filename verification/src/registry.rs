//! The global dropdown option registry: an append-only table from monotonic
//! integer ids to option labels and icon references.  Ids are handed out in
//! order and never reused or removed, so an id stays valid for the life of
//! the registry.

use vstd::prelude::*;

verus! {

pub type DropdownOptionId = u32;

pub struct DropdownOption {
    pub label: String,
    /// Reference into the host's image assets, if the option carries an icon.
    pub icon: Option<u64>,
}

pub struct DropdownOptionRegistry {
    pub options: Vec<DropdownOption>,
}

/// The label shown for an id that was never registered.
pub open spec fn fallback_label() -> Seq<char> {
    "Invalid option"@
}

impl DropdownOptionRegistry {
    /// The label belonging to `id`, or the fallback for an unknown id.
    pub open spec fn spec_label_of(self, id: int) -> Seq<char> {
        if 0 <= id < self.options@.len() {
            self.options@[id].label@
        } else {
            fallback_label()
        }
    }

    pub open spec fn spec_has(self, id: int) -> bool {
        0 <= id < self.options@.len()
    }

    pub fn new() -> (r: DropdownOptionRegistry)
        ensures
            r.options@.len() == 0,
    {
        DropdownOptionRegistry { options: Vec::new() }
    }

    pub fn option_count(&self) -> (r: usize)
        ensures
            r == self.options@.len(),
    {
        self.options.len()
    }

    /// Registers one option and hands back its fresh id: the next unused
    /// index.  Existing entries are untouched, so ids are never reused.
    pub fn register_option(&mut self, label: String, icon: Option<u64>) -> (id: DropdownOptionId)
        requires
            old(self).options@.len() < DropdownOptionId::MAX as nat,
        ensures
            id as int == old(self).options@.len(),
            final(self).options@ == old(self).options@.push(DropdownOption { label, icon }),
            final(self).spec_has(id as int),
            final(self).spec_label_of(id as int) == label@,
    {
        let id = self.options.len() as u32;
        self.options.push(DropdownOption { label, icon });
        id
    }

    /// Registers a batch of options, in order, and hands back their ids.
    pub fn register_options(&mut self, items: Vec<(String, Option<u64>)>) -> (ids: Vec<
        DropdownOptionId,
    >)
        requires
            old(self).options@.len() + items@.len() < DropdownOptionId::MAX as nat,
        ensures
            ids@.len() == items@.len(),
            final(self).options@.len() == old(self).options@.len() + items@.len(),
            forall|i: int|
                0 <= i < old(self).options@.len() ==> final(self).options@[i] == old(
                    self,
                ).options@[i],
            forall|i: int|
                0 <= i < items@.len() ==> {
                    &&& #[trigger] ids@[i] == old(self).options@.len() + i
                    &&& final(self).options@[old(self).options@.len() + i].label@ == items@[i].0@
                    &&& final(self).options@[old(self).options@.len() + i].icon == items@[i].1
                },
    {
        let mut ids: Vec<DropdownOptionId> = Vec::new();
        let mut k: usize = 0;
        while k < items.len()
            invariant
                k <= items@.len(),
                old(self).options@.len() + items@.len() < DropdownOptionId::MAX as nat,
                self.options@.len() == old(self).options@.len() + k,
                ids@.len() == k,
                forall|i: int|
                    0 <= i < old(self).options@.len() ==> self.options@[i] == old(
                        self,
                    ).options@[i],
                forall|i: int|
                    0 <= i < k ==> {
                        &&& #[trigger] ids@[i] == old(self).options@.len() + i
                        &&& self.options@[old(self).options@.len() + i].label@ == items@[i].0@
                        &&& self.options@[old(self).options@.len() + i].icon == items@[i].1
                    },
            decreases items@.len() - k,
        {
            let label = items[k].0.clone();
            let icon = items[k].1;
            let id = self.register_option(label, icon);
            ids.push(id);
            k = k + 1;
        }
        ids
    }

    /// The display label for `id`: the registered label, or a fallback when
    /// the id is unknown (an unresolved lookup is not an error).
    pub fn label_of(&self, id: DropdownOptionId) -> (r: String)
        ensures
            r@ == self.spec_label_of(id as int),
    {
        if (id as usize) < self.options.len() {
            self.options[id as usize].label.clone()
        } else {
            "Invalid option".to_owned()
        }
    }

    pub fn has_option(&self, id: DropdownOptionId) -> (r: bool)
        ensures
            r == self.spec_has(id as int),
    {
        (id as usize) < self.options.len()
    }
}

} // verus!
