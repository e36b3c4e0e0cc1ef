//! Which dsh executable is launched, and which installs are kept.

use vstd::prelude::*;
use vstd::string::*;

use crate::paths::join_path;
use crate::paths::path_join;
use crate::runtime::bin_of;
use crate::runtime::active_version;
use crate::runtime::bin_path;
use crate::runtime::is_complete;
use crate::runtime::overrides;
use crate::runtime::pointed_version;
use crate::runtime::pointer_file;
use crate::runtime::read_current;
use crate::runtime::versions_path;
use crate::runtime::Install;
use crate::text::begins_with;
use crate::text::blank;
use crate::text::is_blank;
use crate::text::is_white_space;
use crate::text::lemma_trimmed_identity;
use crate::text::maybe_text;
use crate::text::plus;
use crate::text::result_text;
use crate::text::same;
use crate::text::texts;
use crate::text::trim;
use crate::text::trimmed;

verus! {

/// Which dsh executable to launch.
#[derive(Debug)]
pub enum Resolve {
    Ready(String),
    NeedBootstrap,
    Failed(String),
}

/// The texts of a [`Resolve`].
#[verifier::ext_equal]
pub enum ResolveView {
    Ready(Seq<char>),
    NeedBootstrap,
    Failed(Seq<char>),
}

impl View for Resolve {
    type V = ResolveView;

    open spec fn view(&self) -> ResolveView {
        match self {
            Resolve::Ready(bin) => ResolveView::Ready(bin@),
            Resolve::NeedBootstrap => ResolveView::NeedBootstrap,
            Resolve::Failed(reason) => ResolveView::Failed(reason@),
        }
    }
}

/// An entry in the directory of the versions.
#[derive(Debug)]
pub struct VersionEntry {
    pub name: String,
    pub is_dir: bool,
    /// When it was last changed, in nanoseconds since the epoch, where that is known.
    pub mtime_nanos: Option<i128>,
    /// Whether the install in it can be run.
    pub complete: bool,
}

/// The values of a [`VersionEntry`].
#[verifier::ext_equal]
pub struct VersionEntryView {
    pub name: Seq<char>,
    pub is_dir: bool,
    /// When it was last changed; the epoch where that is not known.
    pub mtime: int,
    pub complete: bool,
}

/// A time in nanoseconds since the epoch; the epoch where it is not known.
pub open spec fn time_of(nanos: Option<i128>) -> int {
    match nanos {
        Some(nanos) => nanos as int,
        None => 0,
    }
}

impl View for VersionEntry {
    type V = VersionEntryView;

    open spec fn view(&self) -> VersionEntryView {
        VersionEntryView {
            name: self.name@,
            is_dir: self.is_dir,
            mtime: time_of(self.mtime_nanos),
            complete: self.complete,
        }
    }
}

/// The values of a row of entries.
pub open spec fn listed(v: Seq<VersionEntry>) -> Seq<VersionEntryView> {
    v.map_values(|e: VersionEntry| e@)
}

impl VersionEntryView {
    /// The entry is the directory of a version. A name with a dot in front is no version.
    pub open spec fn version_dir(self) -> bool {
        self.is_dir && !"."@.is_prefix_of(self.name)
    }

    /// The entry is a version that can be run.
    pub open spec fn candidate(self) -> bool {
        self.version_dir() && self.complete
    }
}

impl VersionEntry {
    fn is_version_dir(&self) -> (r: bool)
        ensures
            r == self@.version_dir(),
    {
        self.is_dir && !begins_with(self.name.as_str(), ".")
    }

    fn changed(&self) -> (r: i128)
        ensures
            r == self@.mtime,
    {
        match self.mtime_nanos {
            Some(nanos) => nanos,
            None => 0,
        }
    }
}

/// The place of the version that was changed last; of several, the first that is listed.
pub open spec fn newest(entries: Seq<VersionEntryView>) -> Option<int>
    decreases entries.len(),
{
    if entries.len() == 0 {
        None
    } else {
        let before = newest(entries.drop_last());
        if entries.last().candidate() && (before is None || entries.last().mtime
            > entries[before->0].mtime) {
            Some(entries.len() - 1)
        } else {
            before
        }
    }
}

/// The place of the version that was changed last.
pub fn newest_version(entries: &Vec<VersionEntry>) -> (r: Option<usize>)
    ensures
        match r {
            Some(i) => newest(listed(entries@)) == Some(i as int) && i < entries.len(),
            None => newest(listed(entries@)) is None,
        },
{
    let ghost all = listed(entries@);
    let mut best: Option<usize> = None;
    let mut i: usize = 0;
    while i < entries.len()
        invariant
            all == listed(entries@),
            i <= entries.len(),
            match best {
                Some(b) => newest(all.take(i as int)) == Some(b as int) && b < i,
                None => newest(all.take(i as int)) is None,
            },
        decreases entries.len() - i,
    {
        assert(all.take(i as int + 1).drop_last() =~= all.take(i as int));
        let entry = &entries[i];
        if entry.is_version_dir() && entry.complete {
            let later = match best {
                Some(b) => entry.changed() > entries[b].changed(),
                None => true,
            };
            if later {
                best = Some(i);
            }
        }
        i = i + 1;
    }
    assert(all.take(entries.len() as int) =~= all);
    best
}

/// What the search for the executable goes by.
#[derive(Debug)]
pub struct RuntimeFacts {
    /// The variable `DSH_BIN`.
    pub dsh_bin: Option<String>,
    /// Whether `DSH_BIN`, without the white space round it, is a file.
    pub dsh_bin_is_file: bool,
    /// The directory of the versions, or why there is none.
    pub versions: Result<String, String>,
    /// What that directory lists; nothing where it cannot be listed.
    pub entries: Option<Vec<VersionEntry>>,
    /// The text of the pointer, where there is one.
    pub pointer: Option<String>,
    /// Whether the install that the pointer names can be run.
    pub pointed_complete: bool,
}

/// The values of a [`RuntimeFacts`].
#[verifier::ext_equal]
pub struct RuntimeFactsView {
    pub dsh_bin: Option<Seq<char>>,
    pub dsh_bin_is_file: bool,
    pub versions: Result<Seq<char>, Seq<char>>,
    pub entries: Option<Seq<VersionEntryView>>,
    pub pointer: Option<Seq<char>>,
    pub pointed_complete: bool,
}

impl View for RuntimeFacts {
    type V = RuntimeFactsView;

    open spec fn view(&self) -> RuntimeFactsView {
        RuntimeFactsView {
            dsh_bin: maybe_text(self.dsh_bin),
            dsh_bin_is_file: self.dsh_bin_is_file,
            versions: result_text(self.versions),
            entries: match self.entries {
                Some(entries) => Some(listed(entries@)),
                None => None,
            },
            pointer: maybe_text(self.pointer),
            pointed_complete: self.pointed_complete,
        }
    }
}

impl RuntimeFactsView {
    /// `DSH_BIN` is set and not blank.
    pub open spec fn overridden(self) -> bool {
        overrides(self.dsh_bin)
    }

    /// The executable to launch: `DSH_BIN`; else that of the version that the pointer names; else
    /// that of the version that was changed last.
    pub open spec fn resolution(self) -> ResolveView {
        if self.overridden() {
            if self.dsh_bin_is_file {
                ResolveView::Ready(trimmed(self.dsh_bin->0))
            } else {
                ResolveView::Failed("DSH_BIN 指向的文件不存在: "@ + self.dsh_bin->0)
            }
        } else {
            match self.versions {
                Err(reason) => ResolveView::Failed(reason),
                Ok(versions) => match self.entries {
                    None => ResolveView::NeedBootstrap,
                    Some(entries) => match pointed_version(self.pointer) {
                        Some(current) if self.pointed_complete => ResolveView::Ready(
                            bin_path(path_join(versions, current)),
                        ),
                        _ => match newest(entries) {
                            Some(i) => ResolveView::Ready(
                                bin_path(path_join(versions, entries[i].name)),
                            ),
                            None => ResolveView::NeedBootstrap,
                        },
                    },
                },
            }
        }
    }
}

/// Searches for the executable to launch, once it is known which installs can be run.
pub fn resolve_facts(facts: &RuntimeFacts) -> (r: Resolve)
    ensures
        r@ == facts@.resolution(),
{
    if let Some(bin) = &facts.dsh_bin {
        if !blank(bin.as_str()) {
            if facts.dsh_bin_is_file {
                return Resolve::Ready(trim(bin.as_str()).to_owned());
            }
            return Resolve::Failed(plus("DSH_BIN 指向的文件不存在: ", bin.as_str()));
        }
    }
    let versions = match &facts.versions {
        Ok(versions) => versions,
        Err(reason) => {
            return Resolve::Failed(reason.clone());
        },
    };
    let entries = match &facts.entries {
        Some(entries) => entries,
        None => {
            return Resolve::NeedBootstrap;
        },
    };
    let pointer = match &facts.pointer {
        Some(text) => Some(text.as_str()),
        None => None,
    };
    if let Some(current) = read_current(pointer) {
        if facts.pointed_complete {
            return Resolve::Ready(
                bin_of(join_path(versions.as_str(), current.as_str()).as_str()),
            );
        }
    }
    match newest_version(entries) {
        Some(i) => Resolve::Ready(
            bin_of(join_path(versions.as_str(), entries[i].name.as_str()).as_str()),
        ),
        None => Resolve::NeedBootstrap,
    }
}

/// An entry in the directory of the versions, with what is found in it.
#[derive(Debug)]
pub struct ListedVersion {
    pub name: String,
    pub is_dir: bool,
    /// When it was last changed, in nanoseconds since the epoch, where that is known.
    pub mtime_nanos: Option<i128>,
    pub install: Install,
}

impl ListedVersion {
    /// The entry, once it is known whether the install can be run.
    pub open spec fn settled(self) -> VersionEntryView {
        VersionEntryView {
            name: self.name@,
            is_dir: self.is_dir,
            mtime: time_of(self.mtime_nanos),
            complete: self.install.complete(),
        }
    }
}

/// What is found on the machine when the executable is searched for.
#[derive(Debug)]
pub struct RuntimeProbe {
    /// The variable `DSH_BIN`.
    pub dsh_bin: Option<String>,
    /// Whether `DSH_BIN`, without the white space round it, is a file.
    pub dsh_bin_is_file: bool,
    /// The directory of the versions, or why there is none.
    pub versions: Result<String, String>,
    /// What that directory lists; nothing where it cannot be listed.
    pub entries: Option<Vec<ListedVersion>>,
    /// The text of the pointer, where there is one.
    pub pointer: Option<String>,
    /// What the directory of the version holds that the pointer names.
    pub pointed: Install,
}

impl RuntimeProbe {
    /// What the search goes by.
    pub open spec fn facts(self) -> RuntimeFactsView {
        RuntimeFactsView {
            dsh_bin: maybe_text(self.dsh_bin),
            dsh_bin_is_file: self.dsh_bin_is_file,
            versions: result_text(self.versions),
            entries: match self.entries {
                Some(entries) => Some(entries@.map_values(|e: ListedVersion| e.settled())),
                None => None,
            },
            pointer: maybe_text(self.pointer),
            pointed_complete: self.pointed.complete(),
        }
    }
}

/// Settles which of the listed entries can be run.
pub fn settle_entries(entries: &Vec<ListedVersion>) -> (r: Vec<VersionEntry>)
    ensures
        listed(r@) == entries@.map_values(|e: ListedVersion| e.settled()),
{
    let mut r: Vec<VersionEntry> = Vec::new();
    let mut i: usize = 0;
    while i < entries.len()
        invariant
            i <= entries.len(),
            r.len() == i,
            forall|j: int| 0 <= j < i ==> (#[trigger] r@[j])@ == entries@[j].settled(),
        decreases entries.len() - i,
    {
        let entry = &entries[i];
        r.push(
            VersionEntry {
                name: entry.name.clone(),
                is_dir: entry.is_dir,
                mtime_nanos: entry.mtime_nanos,
                complete: is_complete(&entry.install),
            },
        );
        i = i + 1;
    }
    assert(listed(r@) =~= entries@.map_values(|e: ListedVersion| e.settled()));
    r
}

/// Searches for the executable to launch.
pub fn resolve_active_bin(probe: RuntimeProbe) -> (r: Resolve)
    ensures
        r@ == probe.facts().resolution(),
{
    let entries = match &probe.entries {
        Some(entries) => Some(settle_entries(entries)),
        None => None,
    };
    let pointed_complete = is_complete(&probe.pointed);
    let facts = RuntimeFacts {
        dsh_bin: probe.dsh_bin,
        dsh_bin_is_file: probe.dsh_bin_is_file,
        versions: probe.versions,
        entries,
        pointer: probe.pointer,
        pointed_complete,
    };
    assert(facts@ =~= probe.facts());
    resolve_facts(&facts)
}

/// The names of those among the first `n` entries that are versions that can be run.
pub open spec fn candidate_names(entries: Seq<VersionEntryView>, n: nat) -> Seq<Seq<char>>
    decreases n,
{
    if n == 0 {
        Seq::empty()
    } else if entries[n - 1].candidate() {
        candidate_names(entries, (n - 1) as nat).push(entries[n - 1].name)
    } else {
        candidate_names(entries, (n - 1) as nat)
    }
}

/// The names of the versions that can be switched to.
pub fn runnable_versions(entries: &Vec<VersionEntry>) -> (r: Vec<String>)
    ensures
        texts(r@) == candidate_names(listed(entries@), entries.len() as nat),
{
    let ghost all = listed(entries@);
    let mut r: Vec<String> = Vec::new();
    let mut i: usize = 0;
    assert(texts(r@) =~= Seq::empty());
    while i < entries.len()
        invariant
            all == listed(entries@),
            i <= entries.len(),
            texts(r@) == candidate_names(all, i as nat),
        decreases entries.len() - i,
    {
        let ghost before = r@;
        let entry = &entries[i];
        if entry.is_version_dir() && entry.complete {
            r.push(entry.name.clone());
            assert(texts(r@) =~= texts(before).push(entry.name@));
        }
        i = i + 1;
    }
    r
}

/// How many versions before the newest one can be kept.
pub const MAX_RETAINED: u32 = 10;

/// How many of the newest versions are kept beside the active one and the last good one: the
/// newest, and as many before it as are to be retained.
pub open spec fn kept_newest(retained: u32) -> nat {
    1 + if retained > MAX_RETAINED {
        MAX_RETAINED as nat
    } else {
        retained as nat
    }
}

/// The entry `j` is a version and newer than the entry `i`; of two that were changed at the same
/// time the one that is listed first counts as newer.
pub open spec fn newer(entries: Seq<VersionEntryView>, j: int, i: int) -> bool {
    &&& entries[j].version_dir()
    &&& entries[j].mtime > entries[i].mtime || (entries[j].mtime == entries[i].mtime && j < i)
}

/// How many of the first `n` entries are newer versions than the entry `i`.
pub open spec fn newer_count(entries: Seq<VersionEntryView>, i: int, n: nat) -> nat
    decreases n,
{
    if n == 0 {
        0
    } else {
        newer_count(entries, i, (n - 1) as nat) + if newer(entries, n - 1, i) {
            1nat
        } else {
            0nat
        }
    }
}

/// The entry `i` is a version that is not kept: neither the active one, nor the last good one, nor
/// one of the newest.
pub open spec fn superfluous(
    entries: Seq<VersionEntryView>,
    i: int,
    current: Option<Seq<char>>,
    good: Option<Seq<char>>,
    retained: u32,
) -> bool {
    &&& entries[i].version_dir()
    &&& current != Some(entries[i].name)
    &&& good != Some(entries[i].name)
    &&& newer_count(entries, i, entries.len()) >= kept_newest(retained)
}

/// The names of the superfluous ones among the first `n` entries.
pub open spec fn superfluous_names(
    entries: Seq<VersionEntryView>,
    n: nat,
    current: Option<Seq<char>>,
    good: Option<Seq<char>>,
    retained: u32,
) -> Seq<Seq<char>>
    decreases n,
{
    if n == 0 {
        Seq::empty()
    } else {
        let before = superfluous_names(entries, (n - 1) as nat, current, good, retained);
        if superfluous(entries, n - 1, current, good, retained) {
            before.push(entries[n - 1].name)
        } else {
            before
        }
    }
}

/// Whether an optional text is given and is `name`.
fn names(text: &Option<String>, name: &str) -> (r: bool)
    ensures
        r == (maybe_text(*text) == Some(name@)),
{
    match text {
        Some(text) => same(text.as_str(), name),
        None => false,
    }
}

fn count_newer(entries: &Vec<VersionEntry>, i: usize) -> (r: usize)
    requires
        i < entries.len(),
    ensures
        r == newer_count(listed(entries@), i as int, entries.len() as nat),
{
    let ghost all = listed(entries@);
    let mut count: usize = 0;
    let mut j: usize = 0;
    while j < entries.len()
        invariant
            all == listed(entries@),
            i < entries.len(),
            j <= entries.len(),
            count <= j,
            count == newer_count(all, i as int, j as nat),
        decreases entries.len() - j,
    {
        let other = entries[j].changed();
        let own = entries[i].changed();
        if entries[j].is_version_dir() && (other > own || (other == own && j < i)) {
            count = count + 1;
        }
        j = j + 1;
    }
    count
}

/// The names of the versions to remove once a child became ready, where `retained` versions before
/// the newest one are to be kept.
pub fn prune_versions(
    entries: &Vec<VersionEntry>,
    current: &Option<String>,
    good: &Option<String>,
    retained: u32,
) -> (r: Vec<String>)
    ensures
        texts(r@) == superfluous_names(
            listed(entries@),
            entries.len() as nat,
            maybe_text(*current),
            maybe_text(*good),
            retained,
        ),
{
    let ghost all = listed(entries@);
    let kept: usize = if retained > MAX_RETAINED {
        MAX_RETAINED as usize + 1
    } else {
        retained as usize + 1
    };
    let mut r: Vec<String> = Vec::new();
    let mut i: usize = 0;
    assert(texts(r@) =~= Seq::empty());
    while i < entries.len()
        invariant
            all == listed(entries@),
            kept == kept_newest(retained),
            i <= entries.len(),
            texts(r@) == superfluous_names(
                all,
                i as nat,
                maybe_text(*current),
                maybe_text(*good),
                retained,
            ),
        decreases entries.len() - i,
    {
        let ghost before = r@;
        let name = entries[i].name.as_str();
        if entries[i].is_version_dir() && !names(current, name) && !names(good, name)
            && count_newer(entries, i) >= kept {
            r.push(name.to_owned());
            assert(texts(r@) =~= texts(before).push(name@));
        }
        i = i + 1;
    }
    r
}

proof fn lemma_superfluous_names(
    entries: Seq<VersionEntryView>,
    n: nat,
    current: Option<Seq<char>>,
    good: Option<Seq<char>>,
    retained: u32,
    name: Seq<char>,
)
    requires
        n <= entries.len(),
    ensures
        superfluous_names(entries, n, current, good, retained).contains(name) <==> exists|i: int|
            0 <= i < n && superfluous(entries, i, current, good, retained) && (#[trigger] entries[i]).name
                == name,
    decreases n,
{
    if n > 0 {
        let m = (n - 1) as nat;
        let before = superfluous_names(entries, m, current, good, retained);
        let all = superfluous_names(entries, n, current, good, retained);
        lemma_superfluous_names(entries, m, current, good, retained, name);
        if superfluous(entries, n - 1, current, good, retained) {
            assert(all.last() == entries[n - 1].name);
            if before.contains(name) {
                let k = choose|k: int| 0 <= k < before.len() && before[k] == name;
                assert(all[k] == name);
            }
            if all.contains(name) {
                let k = choose|k: int| 0 <= k < all.len() && all[k] == name;
                if k < before.len() {
                    assert(before[k] == name);
                } else {
                    assert(entries[n - 1].name == name);
                }
            }
            if entries[n - 1].name == name {
                assert(all[all.len() - 1] == name);
            }
        }
    }
}

/// What is removed after a start is exactly the superfluous versions. So the active version and
/// the last good one are never removed, and neither are entries that are no version, nor one of
/// the newest.
pub proof fn law_prune(
    entries: Seq<VersionEntryView>,
    current: Option<Seq<char>>,
    good: Option<Seq<char>>,
    retained: u32,
    name: Seq<char>,
)
    ensures
        ({
            let removed = superfluous_names(entries, entries.len(), current, good, retained);
            &&& removed.contains(name) <==> exists|i: int|
                0 <= i < entries.len() && superfluous(entries, i, current, good, retained)
                    && (#[trigger] entries[i]).name == name
            &&& removed.contains(name) ==> current != Some(name) && good != Some(name)
        }),
{
    lemma_superfluous_names(entries, entries.len(), current, good, retained, name);
}

/// The version that is chosen without a pointer can be run, no version that can be run was changed
/// later, and of those that were changed at the same time it is listed first. None is chosen only
/// where none can be run.
pub proof fn law_newest(entries: Seq<VersionEntryView>)
    ensures
        match newest(entries) {
            Some(i) => {
                &&& 0 <= i < entries.len()
                &&& entries[i].candidate()
                &&& forall|j: int|
                    0 <= j < entries.len() && (#[trigger] entries[j]).candidate()
                        ==> entries[j].mtime <= entries[i].mtime
                &&& forall|j: int|
                    0 <= j < i && (#[trigger] entries[j]).candidate() ==> entries[j].mtime
                        < entries[i].mtime
            },
            None => forall|j: int|
                0 <= j < entries.len() ==> !(#[trigger] entries[j]).candidate(),
        },
    decreases entries.len(),
{
    if entries.len() > 0 {
        let front = entries.drop_last();
        law_newest(front);
        assert forall|j: int| 0 <= j < front.len() implies front[j] == #[trigger] entries[j] by {}
    }
}

/// `DSH_BIN` wins: where it is set, nothing else that is found changes the outcome, and no managed
/// version is active.
pub proof fn law_override(facts: RuntimeFactsView, other: RuntimeFactsView)
    requires
        facts.overridden(),
        facts.dsh_bin == other.dsh_bin,
        facts.dsh_bin_is_file == other.dsh_bin_is_file,
    ensures
        facts.resolution() == other.resolution(),
        !(facts.resolution() is NeedBootstrap),
        facts.resolution() is Ready <==> facts.dsh_bin_is_file,
        active_version(facts.dsh_bin, facts.pointer) is None,
{
}

/// Without `DSH_BIN` an executable is launched only from an install that can be run: the one that
/// the pointer names, or one that is listed and has no dot in front of its name. So a staging
/// directory, or an install that was not finished, is not launched on its own.
pub proof fn law_resolved_complete(facts: RuntimeFactsView)
    requires
        !facts.overridden(),
        facts.resolution() is Ready,
    ensures
        facts.versions matches Ok(versions) && facts.entries matches Some(entries) && {
            ||| exists|current: Seq<char>|
                pointed_version(facts.pointer) == Some(current) && facts.pointed_complete
                    && facts.resolution() == ResolveView::Ready(
                    #[trigger] bin_path(path_join(versions, current)),
                )
            ||| exists|i: int|
                0 <= i < entries.len() && (#[trigger] entries[i]).candidate()
                    && facts.resolution() == ResolveView::Ready(
                    bin_path(path_join(versions, entries[i].name)),
                )
        },
{
    let entries = facts.entries->0;
    law_newest(entries);
    let pointed = pointed_version(facts.pointer);
    if pointed is Some && facts.pointed_complete {
        let current = pointed->0;
        assert(facts.resolution() == ResolveView::Ready(
            bin_path(path_join(facts.versions->Ok_0, current)),
        ));
    } else {
        let i = newest(entries)->0;
        assert(entries[i].candidate());
    }
}

/// The pointer that is written for a version is read back as that version, and the executable of
/// that version is launched, whatever else is installed, if its install can be run. The version is
/// not empty and has no white space at its ends.
pub proof fn law_pointer(data: Seq<char>, version: Seq<char>, facts: RuntimeFactsView)
    requires
        version.len() > 0,
        !is_white_space(version[0]),
        !is_white_space(version.last()),
    ensures
        pointed_version(Some(pointer_file(data, version).content)) == Some(version),
        ({
            &&& !facts.overridden()
            &&& facts.versions == Ok::<Seq<char>, Seq<char>>(versions_path(data))
            &&& facts.entries is Some
            &&& facts.pointer == Some(pointer_file(data, version).content)
            &&& facts.pointed_complete
        }) ==> facts.resolution() == ResolveView::Ready(
            bin_path(path_join(versions_path(data), version)),
        ) && active_version(facts.dsh_bin, facts.pointer) == Some(version),
{
    lemma_trimmed_identity(version);
    assert(!is_blank(version)) by {
        assert(!is_white_space(version[0]));
    }
}

/// An entry can be launched exactly if it is a directory, its name does not begin with a dot, and
/// the install in it can be run. An entry whose time is not known counts as changed at the epoch.
pub proof fn law_candidate(entry: VersionEntryView, nanos: i128)
    ensures
        entry.version_dir() <==> entry.is_dir && !(entry.name.len() > 0 && entry.name[0] == '.'),
        entry.candidate() <==> entry.is_dir && !(entry.name.len() > 0 && entry.name[0] == '.')
            && entry.complete,
        time_of(Some(nanos)) == nanos,
        time_of(None) == 0,
{
    reveal_strlit(".");
    if entry.name.len() > 0 && entry.name[0] == '.' {
        assert(entry.name.take(1) =~= "."@);
    }
    if "."@.is_prefix_of(entry.name) {
        assert(entry.name.take(1)[0] == "."@[0]);
    }
}

/// What is found in a listed directory reaches the search as it is.
pub proof fn law_settled(probe: RuntimeProbe, i: int)
    ensures
        ({
            let f = probe.facts();
            &&& f.dsh_bin == maybe_text(probe.dsh_bin)
            &&& f.dsh_bin_is_file == probe.dsh_bin_is_file
            &&& f.versions == result_text(probe.versions)
            &&& f.pointer == maybe_text(probe.pointer)
            &&& f.pointed_complete == probe.pointed.complete()
            &&& f.entries is Some <==> probe.entries is Some
            &&& probe.entries matches Some(entries) ==> {
                &&& f.entries->0.len() == entries.len()
                &&& 0 <= i < entries.len() ==> {
                    &&& f.entries->0[i].name == entries@[i].name@
                    &&& f.entries->0[i].is_dir == entries@[i].is_dir
                    &&& f.entries->0[i].mtime == time_of(entries@[i].mtime_nanos)
                    &&& f.entries->0[i].complete == entries@[i].install.complete()
                }
            }
        }),
{
}

/// The order of the search, without `DSH_BIN`: no directory of versions is a failure with its reason,
/// one that cannot be listed asks for an install; then comes the version that the pointer names, if
/// it can be run; then the listed one that was changed last; and where there is none, an install.
pub proof fn law_search_order(
    facts: RuntimeFactsView,
    versions: Seq<char>,
    entries: Seq<VersionEntryView>,
    i: int,
)
    requires
        facts.dsh_bin matches Some(bin) ==> is_blank(bin),
    ensures
        facts.versions matches Err(reason) ==> facts.resolution() == ResolveView::Failed(reason),
        facts.versions is Ok && facts.entries is None ==> facts.resolution() is NeedBootstrap,
        facts.versions == Ok::<Seq<char>, Seq<char>>(versions) && facts.entries == Some(entries) ==> {
            &&& pointed_version(facts.pointer) is Some && facts.pointed_complete
                ==> facts.resolution() == ResolveView::Ready(
                bin_path(path_join(versions, pointed_version(facts.pointer)->0)),
            )
            &&& (pointed_version(facts.pointer) is None || !facts.pointed_complete) && 0 <= i
                < entries.len() && entries[i].candidate() && (forall|j: int|
                0 <= j < entries.len() && j != i && (#[trigger] entries[j]).candidate()
                    ==> entries[j].mtime < entries[i].mtime) ==> facts.resolution()
                == ResolveView::Ready(bin_path(path_join(versions, entries[i].name)))
            &&& (pointed_version(facts.pointer) is None || !facts.pointed_complete) && (forall|j: int|
                0 <= j < entries.len() ==> !(#[trigger] entries[j]).candidate())
                ==> facts.resolution() is NeedBootstrap
        },
{
    law_newest(entries);
    if 0 <= i < entries.len() && entries[i].candidate() && (forall|j: int|
        0 <= j < entries.len() && j != i && (#[trigger] entries[j]).candidate() ==> entries[j].mtime
            < entries[i].mtime) {
        let n = newest(entries);
        assert(n is Some);
        assert(entries[n->0].candidate());
        if n->0 != i {
            assert(entries[n->0].mtime < entries[i].mtime);
        }
    }
}

/// Under `DSH_BIN` the executable is the one that it names, without the white space round it, or
/// the failure names it.
pub proof fn law_override_named(
    facts: RuntimeFactsView,
    before: Seq<char>,
    bin: Seq<char>,
    after: Seq<char>,
)
    requires
        is_blank(before),
        is_blank(after),
        bin.len() > 0,
        !is_white_space(bin[0]),
        !is_white_space(bin.last()),
        facts.dsh_bin == Some(before + bin + after),
    ensures
        facts.dsh_bin_is_file ==> facts.resolution() == ResolveView::Ready(bin),
        !facts.dsh_bin_is_file ==> facts.resolution() == ResolveView::Failed(
            "DSH_BIN 指向的文件不存在: "@ + (before + bin + after),
        ),
{
    crate::text::law_trimmed(before, bin, after);
    let text = before + bin + after;
    assert(text[before.len() as int] == bin[0]);
    assert(!is_blank(text));
}

/// The places of the directories that are versions and were changed later than the entry `i`.
pub open spec fn later_versions(entries: Seq<VersionEntryView>, i: int, n: nat) -> Set<int> {
    vstd::set_lib::set_int_range(0, n as int).filter(
        |j: int|
            entries[j].is_dir && !(entries[j].name.len() > 0 && entries[j].name[0] == '.')
                && entries[j].mtime > entries[i].mtime,
    )
}

proof fn lemma_later_versions(entries: Seq<VersionEntryView>, i: int, n: nat)
    requires
        0 <= i < entries.len(),
        n <= entries.len(),
        forall|a: int, b: int|
            0 <= a < entries.len() && 0 <= b < entries.len() && a != b ==> (
            #[trigger] entries[a]).mtime != (#[trigger] entries[b]).mtime,
    ensures
        later_versions(entries, i, n).finite(),
        newer_count(entries, i, n) == later_versions(entries, i, n).len(),
    decreases n,
{
    vstd::set_lib::lemma_int_range(0, n as int);
    vstd::set_lib::set_int_range(0, n as int).lemma_len_filter(
        |j: int|
            entries[j].is_dir && !(entries[j].name.len() > 0 && entries[j].name[0] == '.')
                && entries[j].mtime > entries[i].mtime,
    );
    if n == 0 {
        assert(later_versions(entries, i, n) =~= Set::empty());
    } else {
        let m = (n - 1) as nat;
        lemma_later_versions(entries, i, m);
        law_candidate(entries[m as int], 0);
        assert(m != i ==> entries[m as int].mtime != entries[i].mtime);
        if newer(entries, m as int, i) {
            assert(later_versions(entries, i, n) =~= later_versions(entries, i, m).insert(m as int));
            assert(!later_versions(entries, i, m).contains(m as int));
        } else {
            assert(later_versions(entries, i, n) =~= later_versions(entries, i, m));
        }
    }
}

/// A version is removed exactly if it is neither the active one nor the last good one, and at least
/// as many versions were changed later as are kept: the newest one and those retained, at most ten.
/// Where versions stand in the listing does not matter. Names and times are all different.
pub proof fn law_prune_counts(
    entries: Seq<VersionEntryView>,
    current: Option<Seq<char>>,
    good: Option<Seq<char>>,
    retained: u32,
    i: int,
)
    requires
        0 <= i < entries.len(),
        forall|a: int, b: int|
            0 <= a < entries.len() && 0 <= b < entries.len() && a != b ==> (
            #[trigger] entries[a]).name != (#[trigger] entries[b]).name && entries[a].mtime
                != entries[b].mtime,
    ensures
        superfluous_names(entries, entries.len(), current, good, retained).contains(entries[i].name)
            <==> entries[i].is_dir && !(entries[i].name.len() > 0 && entries[i].name[0] == '.')
            && current != Some(entries[i].name) && good != Some(entries[i].name) && later_versions(
            entries,
            i,
            entries.len(),
        ).len() >= 1 + (if retained < 10 {
            retained as int
        } else {
            10
        }),
{
    let name = entries[i].name;
    law_prune(entries, current, good, retained, name);
    law_candidate(entries[i], 0);
    lemma_later_versions(entries, i, entries.len());
    assert(superfluous_names(entries, entries.len(), current, good, retained).contains(name)
        <==> superfluous(entries, i, current, good, retained));
}

proof fn lemma_newer_counts(entries: Seq<VersionEntryView>, i: int, j: int, n: nat)
    requires
        0 <= i < entries.len(),
        0 <= j < entries.len(),
        n <= entries.len(),
        entries[i].version_dir(),
        entries[i].mtime > entries[j].mtime || (entries[i].mtime == entries[j].mtime && i < j),
    ensures
        newer_count(entries, i, n) + (if i < n {
            1int
        } else {
            0
        }) <= newer_count(entries, j, n),
    decreases n,
{
    if n > 0 {
        lemma_newer_counts(entries, i, j, (n - 1) as nat);
    }
}

/// Nothing that is removed was changed later than a version that is kept, unless that one is kept as
/// the active or the last good one; and where both were changed at the same time, the one that is
/// kept is listed first. Names are all different, as in a directory; times need not be.
pub proof fn law_prune_oldest(
    entries: Seq<VersionEntryView>,
    current: Option<Seq<char>>,
    good: Option<Seq<char>>,
    retained: u32,
    i: int,
    j: int,
)
    requires
        0 <= i < entries.len(),
        0 <= j < entries.len(),
        forall|a: int, b: int|
            0 <= a < entries.len() && 0 <= b < entries.len() && a != b ==> (
            #[trigger] entries[a]).name != (#[trigger] entries[b]).name,
        superfluous_names(entries, entries.len(), current, good, retained).contains(entries[i].name),
        !superfluous_names(entries, entries.len(), current, good, retained).contains(
            entries[j].name,
        ),
        entries[j].is_dir,
        entries[j].name.len() > 0 ==> entries[j].name[0] != '.',
        current != Some(entries[j].name),
        good != Some(entries[j].name),
    ensures
        entries[i].mtime <= entries[j].mtime,
        entries[i].mtime == entries[j].mtime ==> j < i,
{
    law_prune(entries, current, good, retained, entries[i].name);
    law_prune(entries, current, good, retained, entries[j].name);
    law_candidate(entries[j], 0);
    assert(superfluous(entries, i, current, good, retained));
    assert(!superfluous(entries, j, current, good, retained));
    if entries[i].mtime > entries[j].mtime || (entries[i].mtime == entries[j].mtime && i < j) {
        lemma_newer_counts(entries, i, j, entries.len());
    }
}

/// The names that can be switched to are exactly those of the entries that can be launched.
pub proof fn law_switchable(entries: Seq<VersionEntryView>, n: nat, name: Seq<char>)
    requires
        n <= entries.len(),
    ensures
        candidate_names(entries, n).contains(name) <==> exists|i: int|
            0 <= i < n && (#[trigger] entries[i]).is_dir && !(entries[i].name.len() > 0
                && entries[i].name[0] == '.') && entries[i].complete && entries[i].name == name,
    decreases n,
{
    if n > 0 {
        let m = (n - 1) as nat;
        let before = candidate_names(entries, m);
        let all = candidate_names(entries, n);
        law_switchable(entries, m, name);
        law_candidate(entries[m as int], 0);
        if entries[m as int].candidate() {
            assert(all.last() == entries[m as int].name);
            if before.contains(name) {
                let k = choose|k: int| 0 <= k < before.len() && before[k] == name;
                assert(all[k] == name);
            }
            if all.contains(name) {
                let k = choose|k: int| 0 <= k < all.len() && all[k] == name;
                if k < before.len() {
                    assert(before[k] == name);
                }
            }
            if entries[m as int].name == name {
                assert(all[all.len() - 1] == name);
            }
        }
    }
}

/// The outcome of a search is shown as it is.
pub proof fn law_resolve_shown(x: Resolve)
    ensures
        x matches Resolve::Ready(bin) ==> x@ == (ResolveView::Ready(bin@)),
        x is NeedBootstrap ==> x@ is NeedBootstrap,
        x matches Resolve::Failed(reason) ==> x@ == (ResolveView::Failed(reason@)),
{
}

/// An entry is shown as it is; one without a time counts as changed at the epoch.
pub proof fn law_version_entry_shown(x: VersionEntry)
    ensures
        x@.name == x.name@,
        x@.is_dir == x.is_dir,
        x.mtime_nanos is None ==> x@.mtime == 0,
        x.mtime_nanos matches Some(nanos) ==> x@.mtime == nanos,
        x@.complete == x.complete,
{
}

/// What was found of the runtime is shown as it is.
pub proof fn law_runtime_facts_shown(x: RuntimeFacts)
    ensures
        x.dsh_bin is None ==> x@.dsh_bin is None,
        x.dsh_bin matches Some(s) ==> x@.dsh_bin == Some(s@),
        x@.dsh_bin_is_file == x.dsh_bin_is_file,
        x.versions matches Ok(s) ==> x@.versions == Ok::<Seq<char>, Seq<char>>(s@),
        x.versions matches Err(e) ==> x@.versions == Err::<Seq<char>, Seq<char>>(e@),
        x.entries is None ==> x@.entries is None,
        x.entries matches Some(entries) ==> x@.entries == Some(listed(entries@)),
        x.pointer is None ==> x@.pointer is None,
        x.pointer matches Some(s) ==> x@.pointer == Some(s@),
        x@.pointed_complete == x.pointed_complete,
{
}

/// Names are listed in the order of their entries, each entry by its own name and at most once.
pub proof fn law_names_in_order(
    entries: Seq<VersionEntryView>,
    n: nat,
    current: Option<Seq<char>>,
    good: Option<Seq<char>>,
    retained: u32,
)
    requires
        n < entries.len(),
    ensures
        candidate_names(entries, 0).len() == 0,
        entries[n as int].candidate() ==> candidate_names(entries, n + 1) == candidate_names(
            entries,
            n,
        ).push(entries[n as int].name),
        !entries[n as int].candidate() ==> candidate_names(entries, n + 1) == candidate_names(
            entries,
            n,
        ),
        superfluous_names(entries, 0, current, good, retained).len() == 0,
        superfluous_names(entries, n + 1, current, good, retained) == superfluous_names(
            entries,
            n,
            current,
            good,
            retained,
        ) || superfluous_names(entries, n + 1, current, good, retained) == superfluous_names(
            entries,
            n,
            current,
            good,
            retained,
        ).push(entries[n as int].name),
{
}

/// Entries are listed one for one and in their order.
pub proof fn law_listed(v: Seq<VersionEntry>, i: int)
    ensures
        listed(v).len() == v.len(),
        0 <= i < v.len() ==> listed(v)[i] == v[i]@,
{
}

} // verus!
