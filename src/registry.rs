//! The module loader and the entry-point registry: the module path is fixed
//! once, the module is loaded at most once, and each entry point is resolved
//! at most once, independently of the others. Every outcome, failures
//! included, is kept for good.
//!
//! The registry decides; the caller opens the module and looks symbols up,
//! and records what came of it.
use vstd::prelude::*;

use crate::error::EzTransError;

verus! {

/// The engine's entry points that sessions use.
#[derive(Debug, Clone, Copy, PartialEq, Eq, Structural)]
pub enum EntryPoint {
    FreeMem,
    InitializeEx,
    Terminate,
    TranslateMmnt,
    TranslateMmntw,
}

pub open spec fn entry_index(e: EntryPoint) -> int {
    match e {
        EntryPoint::FreeMem => 0,
        EntryPoint::InitializeEx => 1,
        EntryPoint::Terminate => 2,
        EntryPoint::TranslateMmnt => 3,
        EntryPoint::TranslateMmntw => 4,
    }
}

/// The exported name of an entry point.
pub open spec fn symbol_of(e: EntryPoint) -> Seq<char> {
    match e {
        EntryPoint::FreeMem => "J2K_FreeMem"@,
        EntryPoint::InitializeEx => "J2K_InitializeEx"@,
        EntryPoint::Terminate => "J2K_Terminate"@,
        EntryPoint::TranslateMmnt => "J2K_TranslateMMNT"@,
        EntryPoint::TranslateMmntw => "J2K_TranslateMMNTW"@,
    }
}

/// A recorded outcome: success, or the loader's message.
pub open spec fn outcome_view(o: Result<(), String>) -> Result<(), Seq<char>> {
    match o {
        Ok(()) => Ok(()),
        Err(m) => Err(m@),
    }
}

pub open spec fn slot_view(s: Option<Result<(), String>>) -> Option<Result<(), Seq<char>>> {
    match s {
        Some(o) => Some(outcome_view(o)),
        None => None,
    }
}

/// What the process knows of the engine module and its entry points.
pub struct ModuleRegistry {
    path: Option<String>,
    load: Option<Result<(), String>>,
    entries: Vec<Option<Result<(), String>>>,
}

impl EntryPoint {
    /// The exported name of this entry point.
    pub fn symbol(&self) -> (r: &'static str)
        ensures
            r@ == symbol_of(*self),
    {
        match self {
            EntryPoint::FreeMem => "J2K_FreeMem",
            EntryPoint::InitializeEx => "J2K_InitializeEx",
            EntryPoint::Terminate => "J2K_Terminate",
            EntryPoint::TranslateMmnt => "J2K_TranslateMMNT",
            EntryPoint::TranslateMmntw => "J2K_TranslateMMNTW",
        }
    }

    fn index(&self) -> (r: usize)
        ensures
            r == entry_index(*self),
    {
        match self {
            EntryPoint::FreeMem => 0,
            EntryPoint::InitializeEx => 1,
            EntryPoint::Terminate => 2,
            EntryPoint::TranslateMmnt => 3,
            EntryPoint::TranslateMmntw => 4,
        }
    }
}

impl ModuleRegistry {
    pub closed spec fn well_formed(&self) -> bool {
        &&& self.entries.len() == 5
        &&& self.load is None ==> forall|i: int| 0 <= i < 5 ==> self.entries@[i] is None
        &&& self.path is None ==> self.load is None
    }

    /// The module path, once fixed.
    pub closed spec fn path_view(&self) -> Option<Seq<char>> {
        match self.path {
            Some(p) => Some(p@),
            None => None,
        }
    }

    /// What came of loading the module, once tried.
    pub closed spec fn load_view(&self) -> Option<Result<(), Seq<char>>> {
        slot_view(self.load)
    }

    /// What came of resolving `e`, once tried.
    pub closed spec fn entry_view(&self, e: EntryPoint) -> Option<Result<(), Seq<char>>> {
        slot_view(self.entries@[entry_index(e)])
    }

    /// A registry that knows nothing yet.
    pub fn new() -> (r: ModuleRegistry)
        ensures
            r.well_formed(),
            r.path_view() is None,
            r.load_view() is None,
            forall|e: EntryPoint| #[trigger] r.entry_view(e) is None,
    {
        let mut entries: Vec<Option<Result<(), String>>> = Vec::new();
        let mut i: usize = 0;
        while i < 5
            invariant
                i <= 5,
                entries.len() == i,
                forall|j: int| 0 <= j < i ==> entries@[j] is None,
            decreases 5 - i,
        {
            entries.push(None);
            i = i + 1;
        }
        ModuleRegistry { path: None, load: None, entries }
    }

    /// Fixes the module path. It can be fixed once only: a second path is
    /// refused and handed back in the error.
    pub fn fix_path(&mut self, path: String) -> (r: Result<(), EzTransError>)
        requires
            old(self).well_formed(),
        ensures
            final(self).well_formed(),
            old(self).path_view() is None ==> r is Ok && final(self).path_view() == Some(path@),
            old(self).path_view() is Some ==> (r matches Err(EzTransError::OnceLockError(p))
                && p@ == path@ && final(self).path_view() == old(self).path_view()),
            final(self).load_view() == old(self).load_view(),
            forall|e: EntryPoint| #[trigger] final(self).entry_view(e) == old(self).entry_view(e),
    {
        if self.path.is_some() {
            return Err(EzTransError::OnceLockError(path));
        }
        self.path = Some(path);
        Ok(())
    }

    /// The path to open now: the fixed path, while no load was tried.
    pub fn pending_load(&self) -> (r: Option<String>)
        ensures
            r is Some <==> (self.path_view() is Some && self.load_view() is None),
            r matches Some(p) ==> self.path_view() == Some(p@),
    {
        match (&self.path, &self.load) {
            (Some(p), None) => Some(p.clone()),
            _ => None,
        }
    }

    /// Keeps what came of opening the module. Only the first outcome after
    /// the path was fixed is kept; a failed load is never retried.
    pub fn record_load(&mut self, outcome: Result<(), String>)
        requires
            old(self).well_formed(),
        ensures
            final(self).well_formed(),
            final(self).path_view() == old(self).path_view(),
            (old(self).path_view() is Some && old(self).load_view() is None) ==> final(self).load_view() == Some(outcome_view(outcome)),
            !(old(self).path_view() is Some && old(self).load_view() is None) ==> final(self).load_view() == old(self).load_view(),
            forall|e: EntryPoint| #[trigger] final(self).entry_view(e) == old(self).entry_view(e),
    {
        if self.path.is_some() && self.load.is_none() {
            self.load = Some(outcome);
        }
    }

    /// The module's state: `None` while a load is owed, else whether it
    /// was opened.
    pub fn load_status(&self) -> (r: Option<Result<(), EzTransError>>)
        requires
            self.well_formed(),
        ensures
            self.path_view() is None ==> r == Some(
                Err::<(), EzTransError>(EzTransError::DllPathNotSet),
            ),
            self.path_view() is Some && self.load_view() is None ==> r is None,
            self.load_view() == Some(Ok::<(), Seq<char>>(())) ==> r == Some(Ok::<(), EzTransError>(())),
            self.load_view() matches Some(Err(m)) ==> (r matches Some(
                Err(EzTransError::LibraryLoadError(e)),
            ) && e@ == m),
    {
        match &self.path {
            None => Some(Err(EzTransError::DllPathNotSet)),
            Some(_) => match &self.load {
                None => None,
                Some(Ok(())) => Some(Ok(())),
                Some(Err(m)) => Some(Err(EzTransError::LibraryLoadError(m.clone()))),
            },
        }
    }

    /// The symbol to look up now for `e`: while the module is open and `e`
    /// was not tried yet.
    pub fn pending_symbol(&self, e: EntryPoint) -> (r: Option<&'static str>)
        requires
            self.well_formed(),
        ensures
            r is Some <==> (self.load_view() == Some(Ok::<(), Seq<char>>(()))
                && self.entry_view(e) is None),
            r matches Some(name) ==> name@ == symbol_of(e),
    {
        match &self.load {
            Some(Ok(())) => {
                if self.entries[e.index()].is_none() {
                    Some(e.symbol())
                } else {
                    None
                }
            },
            _ => None,
        }
    }

    /// Keeps what came of looking `e` up. Only the first outcome, while the
    /// module is open, is kept; the other entry points are untouched.
    pub fn record_symbol(&mut self, e: EntryPoint, outcome: Result<(), String>)
        requires
            old(self).well_formed(),
        ensures
            final(self).well_formed(),
            final(self).path_view() == old(self).path_view(),
            final(self).load_view() == old(self).load_view(),
            (old(self).load_view() == Some(Ok::<(), Seq<char>>(())) && old(self).entry_view(e) is None)
                ==> final(self).entry_view(e) == Some(outcome_view(outcome)),
            !(old(self).load_view() == Some(Ok::<(), Seq<char>>(())) && old(self).entry_view(e) is None)
                ==> final(self).entry_view(e) == old(self).entry_view(e),
            forall|o: EntryPoint| o != e ==> #[trigger] final(self).entry_view(o) == old(self).entry_view(o),
    {
        let i = e.index();
        let open = match &self.load {
            Some(Ok(())) => true,
            _ => false,
        };
        if open && self.entries[i].is_none() {
            self.entries.set(i, Some(outcome));
            assert forall|o: EntryPoint| o != e implies #[trigger] self.entry_view(o) == old(self).entry_view(o) by {
                assert(entry_index(o) != entry_index(e));
            }
        }
    }

    /// What is known of `e`: `None` while a load or a lookup is owed; a
    /// module that failed to load fails every entry point with its error.
    pub fn entry_status(&self, e: EntryPoint) -> (r: Option<Result<(), EzTransError>>)
        requires
            self.well_formed(),
        ensures
            self.path_view() is None ==> r == Some(
                Err::<(), EzTransError>(EzTransError::DllPathNotSet),
            ),
            self.path_view() is Some && self.load_view() is None ==> r is None,
            self.load_view() matches Some(Err(m)) ==> (r matches Some(
                Err(EzTransError::LibraryLoadError(x)),
            ) && x@ == m),
            self.load_view() == Some(Ok::<(), Seq<char>>(())) ==> match self.entry_view(e) {
                None => r is None,
                Some(Ok(())) => r == Some(Ok::<(), EzTransError>(())),
                Some(Err(m)) => r matches Some(Err(EzTransError::SymbolLoadError(x))) && x@ == m,
            },
    {
        match self.load_status() {
            Some(Ok(())) => match &self.entries[e.index()] {
                None => None,
                Some(Ok(())) => Some(Ok(())),
                Some(Err(m)) => Some(Err(EzTransError::SymbolLoadError(m.clone()))),
            },
            other => other,
        }
    }

    /// Whether `e` was found: the capability probe, where a missing entry
    /// point means the capability is absent.
    pub fn supports(&self, e: EntryPoint) -> (r: bool)
        requires
            self.well_formed(),
        ensures
            r == (self.load_view() == Some(Ok::<(), Seq<char>>(()))
                && self.entry_view(e) == Some(Ok::<(), Seq<char>>(()))),
    {
        match self.entry_status(e) {
            Some(Ok(())) => true,
            _ => false,
        }
    }
}

} // verus!
