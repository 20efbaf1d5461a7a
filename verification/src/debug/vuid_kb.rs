//! Explanations of usage errors that the validation layers report, found by the number at the end
//! of an error's name.
//!
//! Entries that were registered at run time are searched first, then the knowledge base.

use crate::debug::vuid_table;
use crate::text;
use vstd::prelude::*;

verus! {

/// What kind of fault an entry explains.
#[derive(Debug, Clone, Copy, PartialEq, Eq, Structural)]
pub enum DiagnosticCategory {
    /// A usage flag is missing.
    UsageFlagMismatch,
    /// An image layout does not fit.
    LayoutTransition,
    /// An object outlives its parent.
    ObjectLifetime,
    /// A submission to a queue.
    QueueSubmission,
    /// A pipeline does not fit.
    PipelineMismatch,
    /// A descriptor does not fit.
    DescriptorMismatch,
    /// Memory and how it is bound.
    MemoryBinding,
    /// A feature was not enabled.
    FeatureNotEnabled,
    /// Accesses are not ordered.
    SynchronizationHazard,
    /// Anything else.
    Other,
}

/// An entry of the knowledge base.
#[derive(Debug, Clone, Copy)]
pub struct KnowledgeEntry {
    /// The number at the end of the error's name.
    pub vuid_suffix: &'static str,
    /// Title.
    pub title: &'static str,
    /// Kind of fault.
    pub category: DiagnosticCategory,
    /// What happened.
    pub what_happened: &'static str,
    /// Why it was rejected.
    pub why_rejected: &'static str,
    /// How to fix it.
    pub ignis_fix: &'static str,
    /// Where to read on.
    pub spec_section: &'static str,
}

/// An entry that is registered at run time.
#[derive(Debug)]
pub struct RuntimeEntry {
    /// The number at the end of the error's name.
    pub vuid_suffix: String,
    /// Title.
    pub title: String,
    /// Kind of fault.
    pub category: DiagnosticCategory,
    /// What happened.
    pub what_happened: String,
    /// Why it was rejected.
    pub why_rejected: String,
    /// How to fix it.
    pub ignis_fix: String,
    /// Where to read on.
    pub spec_section: String,
}

/// An entry that was found.
#[derive(Debug)]
pub struct KnowledgeLookup {
    /// The number at the end of the error's name.
    pub vuid_suffix: String,
    /// Title.
    pub title: String,
    /// Kind of fault.
    pub category: DiagnosticCategory,
    /// What happened.
    pub what_happened: String,
    /// Why it was rejected.
    pub why_rejected: String,
    /// How to fix it.
    pub ignis_fix: String,
    /// Where to read on.
    pub spec_section: String,
}

/// What an entry says.
pub struct Knowledge {
    /// The number at the end of the error's name.
    pub vuid_suffix: Seq<char>,
    /// Title.
    pub title: Seq<char>,
    /// Kind of fault.
    pub category: DiagnosticCategory,
    /// What happened.
    pub what_happened: Seq<char>,
    /// Why it was rejected.
    pub why_rejected: Seq<char>,
    /// How to fix it.
    pub ignis_fix: Seq<char>,
    /// Where to read on.
    pub spec_section: Seq<char>,
}

impl View for KnowledgeEntry {
    type V = Knowledge;

    open spec fn view(&self) -> Knowledge {
        Knowledge {
            vuid_suffix: self.vuid_suffix@,
            title: self.title@,
            category: self.category,
            what_happened: self.what_happened@,
            why_rejected: self.why_rejected@,
            ignis_fix: self.ignis_fix@,
            spec_section: self.spec_section@,
        }
    }
}

impl View for RuntimeEntry {
    type V = Knowledge;

    open spec fn view(&self) -> Knowledge {
        Knowledge {
            vuid_suffix: self.vuid_suffix@,
            title: self.title@,
            category: self.category,
            what_happened: self.what_happened@,
            why_rejected: self.why_rejected@,
            ignis_fix: self.ignis_fix@,
            spec_section: self.spec_section@,
        }
    }
}

impl View for KnowledgeLookup {
    type V = Knowledge;

    open spec fn view(&self) -> Knowledge {
        Knowledge {
            vuid_suffix: self.vuid_suffix@,
            title: self.title@,
            category: self.category,
            what_happened: self.what_happened@,
            why_rejected: self.why_rejected@,
            ignis_fix: self.ignis_fix@,
            spec_section: self.spec_section@,
        }
    }
}

/// The first of some entries for a number.
pub open spec fn first_for(entries: Seq<Knowledge>, suffix: Seq<char>) -> Option<Knowledge>
    decreases entries.len(),
{
    if entries.len() == 0 {
        None
    } else if entries[0].vuid_suffix == suffix {
        Some(entries[0])
    } else {
        first_for(entries.drop_first(), suffix)
    }
}

/// What entries registered at run time say.
pub open spec fn registered(runtime: Seq<RuntimeEntry>) -> Seq<Knowledge> {
    runtime.map_values(|e: RuntimeEntry| e@)
}

/// What the knowledge base says.
pub open spec fn known() -> Seq<Knowledge> {
    vuid_table::base().map_values(|e: KnowledgeEntry| e@)
}

/// What is found for a number: entries registered at run time come before the knowledge base.
pub open spec fn found(runtime: Seq<RuntimeEntry>, suffix: Seq<char>) -> Option<Knowledge> {
    match first_for(registered(runtime), suffix) {
        Some(k) => Some(k),
        None => first_for(known(), suffix),
    }
}

/// Registers an entry.
pub fn register_runtime_entry(runtime: &mut Vec<RuntimeEntry>, entry: RuntimeEntry)
    ensures
        final(runtime)@ == old(runtime)@.push(entry),
{
    runtime.push(entry);
}

/// Forgets all entries that were registered.
pub fn clear_runtime_entries(runtime: &mut Vec<RuntimeEntry>)
    ensures
        final(runtime)@ == Seq::<RuntimeEntry>::empty(),
{
    runtime.clear();
}

impl KnowledgeLookup {
    fn from_static(e: &KnowledgeEntry) -> (r: KnowledgeLookup)
        ensures
            r@ == e@,
    {
        KnowledgeLookup {
            vuid_suffix: e.vuid_suffix.to_owned(),
            title: e.title.to_owned(),
            category: e.category,
            what_happened: e.what_happened.to_owned(),
            why_rejected: e.why_rejected.to_owned(),
            ignis_fix: e.ignis_fix.to_owned(),
            spec_section: e.spec_section.to_owned(),
        }
    }

    fn from_runtime(e: &RuntimeEntry) -> (r: KnowledgeLookup)
        ensures
            r@ == e@,
    {
        KnowledgeLookup {
            vuid_suffix: e.vuid_suffix.clone(),
            title: e.title.clone(),
            category: e.category,
            what_happened: e.what_happened.clone(),
            why_rejected: e.why_rejected.clone(),
            ignis_fix: e.ignis_fix.clone(),
            spec_section: e.spec_section.clone(),
        }
    }
}

/// Finds the explanation for a number: the first entry for it that was registered, or else the
/// first one of the knowledge base.
pub fn lookup(runtime: &Vec<RuntimeEntry>, suffix: &str) -> (r: Option<KnowledgeLookup>)
    ensures
        match found(runtime@, suffix@) {
            Some(k) => r matches Some(l) && l@ == k,
            None => r is None,
        },
{
    let ghost all = registered(runtime@);
    let mut i: usize = 0;
    assert(all.skip(0) =~= all);
    while i < runtime.len()
        invariant
            i <= runtime@.len(),
            all == registered(runtime@),
            first_for(all.skip(i as int), suffix@) == first_for(all, suffix@),
        decreases runtime@.len() - i,
    {
        let ghost rest = all.skip(i as int);
        assert(rest[0] == runtime@[i as int]@);
        if text::same(runtime[i].vuid_suffix.as_str(), suffix) {
            return Some(KnowledgeLookup::from_runtime(&runtime[i]));
        }
        i = i + 1;
        assert(rest.drop_first() =~= all.skip(i as int));
    }
    let base: Vec<KnowledgeEntry> = static_base();
    let ghost rows = known();
    let mut j: usize = 0;
    assert(rows.skip(0) =~= rows);
    while j < base.len()
        invariant
            j <= base@.len(),
            base@ == vuid_table::base(),
            rows == known(),
            first_for(registered(runtime@), suffix@) is None,
            first_for(rows.skip(j as int), suffix@) == first_for(rows, suffix@),
        decreases base@.len() - j,
    {
        let ghost rest = rows.skip(j as int);
        assert(rest[0] == base@[j as int]@);
        if text::same(base[j].vuid_suffix, suffix) {
            return Some(KnowledgeLookup::from_static(&base[j]));
        }
        j = j + 1;
        assert(rest.drop_first() =~= rows.skip(j as int));
    }
    None
}

/// Number of entries, registered ones included.
pub fn total_entries(runtime: &Vec<RuntimeEntry>) -> (r: usize)
    requires
        runtime@.len() + vuid_table::base().len() <= usize::MAX,
    ensures
        r == vuid_table::base().len() + runtime@.len(),
{
    static_base().len() + runtime.len()
}

/// The knowledge base.
pub fn static_base() -> (r: Vec<KnowledgeEntry>)
    ensures
        r@ == vuid_table::base(),
{
    vuid_table::entries()
}

/// What was registered first for a number hides all that follows it: later registrations and the
/// knowledge base.
pub proof fn law_first_registered_entry_is_found(runtime: Seq<RuntimeEntry>, k: int)
    requires
        0 <= k < runtime.len(),
        forall|i: int|
            0 <= i < k ==> (#[trigger] runtime[i]).vuid_suffix@ != runtime[k].vuid_suffix@,
    ensures
        found(runtime, runtime[k].vuid_suffix@) == Some(runtime[k]@),
{
    lemma_first(registered(runtime), k);
}

proof fn lemma_first(entries: Seq<Knowledge>, k: int)
    requires
        0 <= k < entries.len(),
        forall|i: int|
            0 <= i < k ==> (#[trigger] entries[i]).vuid_suffix != entries[k].vuid_suffix,
    ensures
        first_for(entries, entries[k].vuid_suffix) == Some(entries[k]),
    decreases k,
{
    if k > 0 {
        assert(entries[0].vuid_suffix != entries[k].vuid_suffix);
        lemma_first(entries.drop_first(), k - 1);
    }
}

/// With nothing registered, and for a number for which nothing was registered, the knowledge base
/// answers.
pub proof fn law_knowledge_base_answers_for_the_rest(runtime: Seq<RuntimeEntry>, suffix: Seq<char>)
    requires
        forall|i: int| 0 <= i < runtime.len() ==> (#[trigger] runtime[i]).vuid_suffix@ != suffix,
    ensures
        found(runtime, suffix) == first_for(known(), suffix),
{
    lemma_none(registered(runtime), suffix);
}

/// Registering an entry makes one more, and changes what is found for its own number at most, and
/// there only where nothing was registered before.
pub proof fn law_registering_adds_one_entry(
    runtime: Seq<RuntimeEntry>,
    entry: RuntimeEntry,
    suffix: Seq<char>,
)
    ensures
        vuid_table::base().len() + runtime.push(entry).len() == vuid_table::base().len()
            + runtime.len() + 1,
        suffix != entry.vuid_suffix@ ==> found(runtime.push(entry), suffix) == found(
            runtime,
            suffix,
        ),
        first_for(registered(runtime), suffix) is Some ==> found(runtime.push(entry), suffix)
            == found(runtime, suffix),
        first_for(registered(runtime), entry.vuid_suffix@) is None ==> found(
            runtime.push(entry),
            entry.vuid_suffix@,
        ) == Some(entry@),
{
    assert(registered(runtime.push(entry)) =~= registered(runtime).push(entry@));
    lemma_first_of_push(registered(runtime), entry@, suffix);
    lemma_first_of_push(registered(runtime), entry@, entry.vuid_suffix@);
}

proof fn lemma_first_of_push(entries: Seq<Knowledge>, e: Knowledge, suffix: Seq<char>)
    ensures
        first_for(entries.push(e), suffix) == if first_for(entries, suffix) is Some {
            first_for(entries, suffix)
        } else if e.vuid_suffix == suffix {
            Some(e)
        } else {
            None
        },
    decreases entries.len(),
{
    if entries.len() > 0 {
        assert(entries.push(e).drop_first() =~= entries.drop_first().push(e));
        lemma_first_of_push(entries.drop_first(), e, suffix);
    } else {
        assert(entries.push(e).drop_first() =~= Seq::<Knowledge>::empty());
        assert(first_for(entries.push(e).drop_first(), suffix) is None);
    }
}

proof fn lemma_none(entries: Seq<Knowledge>, suffix: Seq<char>)
    requires
        forall|i: int| 0 <= i < entries.len() ==> (#[trigger] entries[i]).vuid_suffix != suffix,
    ensures
        first_for(entries, suffix) is None,
    decreases entries.len(),
{
    if entries.len() > 0 {
        lemma_none(entries.drop_first(), suffix);
    }
}

} // verus!
