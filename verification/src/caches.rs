//! What is remembered of windows from one movement of the mouse to the next.

use std::collections::HashMap;
use vstd::prelude::*;

verus! {

broadcast use vstd::std_specs::hash::group_hash_axioms;

/// The contents of the caches, by window handle.
#[verifier::ext_equal]
pub struct CachesModel {
    pub eligibility: Map<isize, bool>,
    pub class: Map<isize, Seq<char>>,
    pub hwnd_pair: Map<isize, isize>,
    pub root_hwnd: Map<isize, isize>,
}

impl CachesModel {
    /// Nothing is remembered.
    pub open spec fn empty() -> CachesModel {
        CachesModel {
            eligibility: Map::empty(),
            class: Map::empty(),
            hwnd_pair: Map::empty(),
            root_hwnd: Map::empty(),
        }
    }

    /// The same, and whether a window is eligible.
    pub open spec fn with_eligibility(self, hwnd: isize, eligible: bool) -> CachesModel {
        CachesModel { eligibility: self.eligibility.insert(hwnd, eligible), ..self }
    }

    /// The same, and the class of a window.
    pub open spec fn with_class(self, hwnd: isize, class: Seq<char>) -> CachesModel {
        CachesModel { class: self.class.insert(hwnd, class), ..self }
    }

    /// The same, and that two windows belong to the same application.
    pub open spec fn with_pair(self, hwnd: isize, paired: isize) -> CachesModel {
        CachesModel { hwnd_pair: self.hwnd_pair.insert(hwnd, paired), ..self }
    }

    /// The same, and the root of a window.
    pub open spec fn with_root(self, hwnd: isize, root: isize) -> CachesModel {
        CachesModel { root_hwnd: self.root_hwnd.insert(hwnd, root), ..self }
    }

    /// The class remembered of a window.
    pub open spec fn class_of(self, hwnd: isize) -> Option<Seq<char>> {
        if self.class.contains_key(hwnd) {
            Some(self.class[hwnd])
        } else {
            None
        }
    }

    /// The root remembered of a window.
    pub open spec fn root_of(self, hwnd: isize) -> Option<isize> {
        if self.root_hwnd.contains_key(hwnd) {
            Some(self.root_hwnd[hwnd])
        } else {
            None
        }
    }

    /// The window remembered to belong to the same application.
    pub open spec fn paired_with(self, hwnd: isize) -> Option<isize> {
        if self.hwnd_pair.contains_key(hwnd) {
            Some(self.hwnd_pair[hwnd])
        } else {
            None
        }
    }

    /// Whether a window is remembered as eligible, or as not eligible.
    pub open spec fn eligibility_of(self, hwnd: isize) -> Option<bool> {
        if self.eligibility.contains_key(hwnd) {
            Some(self.eligibility[hwnd])
        } else {
            None
        }
    }
}

/// Four caches, each keyed by a window handle: which windows are eligible for focus, the class
/// of each, which windows belong to one application, and the root window of each.
pub struct Caches {
    eligibility: HashMap<isize, bool>,
    class: HashMap<isize, String>,
    hwnd_pair: HashMap<isize, isize>,
    root_hwnd: HashMap<isize, isize>,
}

impl View for Caches {
    type V = CachesModel;

    closed spec fn view(&self) -> CachesModel {
        CachesModel {
            eligibility: self.eligibility@,
            class: self.class@.map_values(|class: String| class@),
            hwnd_pair: self.hwnd_pair@,
            root_hwnd: self.root_hwnd@,
        }
    }
}

impl Caches {
    /// Caches that remember nothing.
    pub fn new() -> (caches: Caches)
        ensures
            caches@ == CachesModel::empty(),
    {
        let caches = Caches {
            eligibility: HashMap::new(),
            class: HashMap::new(),
            hwnd_pair: HashMap::new(),
            root_hwnd: HashMap::new(),
        };
        assert(caches@ =~= CachesModel::empty());
        caches
    }

    /// The root window remembered of a window.
    pub fn root_of(&self, hwnd: isize) -> (root: Option<isize>)
        ensures
            root == self@.root_of(hwnd),
    {
        match self.root_hwnd.get(&hwnd) {
            Some(root) => Some(*root),
            None => None,
        }
    }

    /// The window remembered to belong to the same application as another.
    pub fn paired_with(&self, hwnd: isize) -> (paired: Option<isize>)
        ensures
            paired == self@.paired_with(hwnd),
    {
        match self.hwnd_pair.get(&hwnd) {
            Some(paired) => Some(*paired),
            None => None,
        }
    }

    /// Whether a window is remembered as eligible for focus, or as not eligible.
    pub fn eligibility_of(&self, hwnd: isize) -> (eligible: Option<bool>)
        ensures
            eligible == self@.eligibility_of(hwnd),
    {
        match self.eligibility.get(&hwnd) {
            Some(eligible) => Some(*eligible),
            None => None,
        }
    }

    /// The class remembered of a window.
    pub fn class_of(&self, hwnd: isize) -> (class: Option<&str>)
        ensures
            match class {
                Some(class) => self@.class_of(hwnd) == Some(class@),
                None => self@.class_of(hwnd) is None,
            },
    {
        match self.class.get(&hwnd) {
            Some(class) => Some(class.as_str()),
            None => None,
        }
    }

    /// Remembers the root window of a window.
    pub fn remember_root(&mut self, hwnd: isize, root: isize)
        ensures
            final(self)@ == old(self)@.with_root(hwnd, root),
    {
        self.root_hwnd.insert(hwnd, root);
    }

    /// Remembers that two windows belong to the same application.
    pub fn remember_pair(&mut self, hwnd: isize, paired: isize)
        ensures
            final(self)@ == old(self)@.with_pair(hwnd, paired),
    {
        self.hwnd_pair.insert(hwnd, paired);
    }

    /// Remembers whether a window is eligible for focus.
    pub fn remember_eligibility(&mut self, hwnd: isize, eligible: bool)
        ensures
            final(self)@ == old(self)@.with_eligibility(hwnd, eligible),
    {
        self.eligibility.insert(hwnd, eligible);
    }

    /// Remembers the class of a window.
    pub fn remember_class(&mut self, hwnd: isize, class: String)
        ensures
            final(self)@ == old(self)@.with_class(hwnd, class@),
    {
        self.class.insert(hwnd, class);
        assert(self@ =~= old(self)@.with_class(hwnd, class@));
    }
}

/// What is remembered of a window's eligibility is what was last put in, of other windows what
/// was there before; nothing else is touched.
pub proof fn eligibility_put_in_is_read_back(
    caches: CachesModel,
    hwnd: isize,
    eligible: bool,
    other: isize,
)
    ensures
        caches.with_eligibility(hwnd, eligible).eligibility_of(hwnd) == Some(eligible),
        other != hwnd ==> caches.with_eligibility(hwnd, eligible).eligibility_of(other)
            == caches.eligibility_of(other),
        caches.with_eligibility(hwnd, eligible).class_of(other) == caches.class_of(other),
        caches.with_eligibility(hwnd, eligible).paired_with(other) == caches.paired_with(other),
        caches.with_eligibility(hwnd, eligible).root_of(other) == caches.root_of(other),
{
}

/// The class remembered of a window is the one last put in, of other windows what was there
/// before; nothing else is touched.
pub proof fn a_class_put_in_is_read_back(
    caches: CachesModel,
    hwnd: isize,
    class: Seq<char>,
    other: isize,
)
    ensures
        caches.with_class(hwnd, class).class_of(hwnd) == Some(class),
        other != hwnd ==> caches.with_class(hwnd, class).class_of(other) == caches.class_of(other),
        caches.with_class(hwnd, class).eligibility_of(other) == caches.eligibility_of(other),
        caches.with_class(hwnd, class).paired_with(other) == caches.paired_with(other),
        caches.with_class(hwnd, class).root_of(other) == caches.root_of(other),
{
}

/// The window remembered to go with a window is the one last put in, for other windows what was
/// there before; nothing else is touched. The pair is remembered one way only.
pub proof fn a_pair_put_in_is_read_back(
    caches: CachesModel,
    hwnd: isize,
    paired: isize,
    other: isize,
)
    ensures
        caches.with_pair(hwnd, paired).paired_with(hwnd) == Some(paired),
        other != hwnd ==> caches.with_pair(hwnd, paired).paired_with(other) == caches.paired_with(
            other,
        ),
        caches.with_pair(hwnd, paired).eligibility_of(other) == caches.eligibility_of(other),
        caches.with_pair(hwnd, paired).class_of(other) == caches.class_of(other),
        caches.with_pair(hwnd, paired).root_of(other) == caches.root_of(other),
{
}

/// The root remembered of a window is the one last put in, of other windows what was there
/// before; nothing else is touched.
pub proof fn a_root_put_in_is_read_back(
    caches: CachesModel,
    hwnd: isize,
    root: isize,
    other: isize,
)
    ensures
        caches.with_root(hwnd, root).root_of(hwnd) == Some(root),
        other != hwnd ==> caches.with_root(hwnd, root).root_of(other) == caches.root_of(other),
        caches.with_root(hwnd, root).eligibility_of(other) == caches.eligibility_of(other),
        caches.with_root(hwnd, root).class_of(other) == caches.class_of(other),
        caches.with_root(hwnd, root).paired_with(other) == caches.paired_with(other),
{
}

/// Empty caches remember nothing of any window.
pub proof fn empty_caches_remember_nothing(hwnd: isize)
    ensures
        CachesModel::empty().eligibility_of(hwnd) is None,
        CachesModel::empty().class_of(hwnd) is None,
        CachesModel::empty().paired_with(hwnd) is None,
        CachesModel::empty().root_of(hwnd) is None,
{
}

} // verus!
