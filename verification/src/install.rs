//! The installation: which members of the archive are copied, and where to,
//! under each installation strategy.

use crate::error::ErrorKind;
use crate::paths::{join, joined, SEPARATOR};
use crate::strategy::{InstallationStrategy, StrategyModel};
use crate::text::{chars_of, has_prefix, starts_with_chars};
use vstd::prelude::*;
use vstd::string::{StrSliceExecFns, StringExecFns};

verus! {

/// The three parts of an archive that are installed.
#[derive(Clone, Copy, Debug, PartialEq, Eq, Structural)]
pub enum Section {
    Bin,
    Lib,
    Include,
}

/// One file to copy: from a member of the extracted archive, relative to the
/// working directory, to its place in the installation.
#[derive(Clone, Debug, PartialEq, Eq)]
pub struct CopyStep {
    pub source: String,
    pub destination: String,
}

/// Mathematical model of a [`CopyStep`].
pub struct CopyModel {
    pub source: Seq<char>,
    pub destination: Seq<char>,
}

impl View for CopyStep {
    type V = CopyModel;

    open spec fn view(&self) -> CopyModel {
        CopyModel { source: self.source@, destination: self.destination@ }
    }
}

impl DeepView for CopyStep {
    type V = CopyModel;

    open spec fn deep_view(&self) -> CopyModel {
        self@
    }
}

/// What the installer does once the archive is extracted: the directories to
/// create where they are absent, then the files to copy, both in order.
#[derive(Clone, Debug, PartialEq, Eq)]
pub struct InstallPlan {
    pub directories: Vec<String>,
    pub copies: Vec<CopyStep>,
}

/// Mathematical model of an [`InstallPlan`].
pub struct PlanModel {
    pub directories: Seq<Seq<char>>,
    pub copies: Seq<CopyModel>,
}

impl View for InstallPlan {
    type V = PlanModel;

    open spec fn view(&self) -> PlanModel {
        PlanModel { directories: self.directories.deep_view(), copies: self.copies.deep_view() }
    }
}

/// The directory of a section inside the archive.
pub open spec fn section_name(section: Section) -> Seq<char> {
    match section {
        Section::Bin => "bin"@,
        Section::Lib => "lib"@,
        Section::Include => "include"@,
    }
}

/// The prefix of the members of a section: its directory and a separator.
pub open spec fn section_prefix(section: Section) -> Seq<char> {
    section_name(section).push(SEPARATOR)
}

/// The entry names a member of the section: it begins with the section's
/// prefix and goes on after it.
pub open spec fn lies_in(entry: Seq<char>, section: Section) -> bool {
    has_prefix(entry, section_prefix(section)) && entry.len() > section_prefix(section).len()
}

/// The section that an entry lies in, if any.
pub open spec fn section_of(entry: Seq<char>) -> Option<Section> {
    if lies_in(entry, Section::Bin) {
        Some(Section::Bin)
    } else if lies_in(entry, Section::Lib) {
        Some(Section::Lib)
    } else if lies_in(entry, Section::Include) {
        Some(Section::Include)
    } else {
        None
    }
}

/// What follows the section's prefix in an entry.
pub open spec fn remainder_of(entry: Seq<char>, section: Section) -> Seq<char> {
    entry.skip(section_prefix(section).len() as int)
}

/// The entry names a directory: it ends with a separator.
pub open spec fn is_directory_entry(entry: Seq<char>) -> bool {
    entry.len() > 0 && entry.last() == SEPARATOR
}

/// The entry is installed: it names a regular file of one of the three
/// sections.
pub open spec fn installable(entry: Seq<char>) -> bool {
    !is_directory_entry(entry) && section_of(entry) is Some
}

/// Where an installable entry is copied to. With split paths, members of
/// `bin` land in the directory for executables and members of `lib` and
/// `include` in the data directory, each without its section's prefix. With
/// a single path the entry keeps its path below the root.
pub open spec fn destination_of(strategy: StrategyModel, entry: Seq<char>) -> Seq<char>
    recommends
        installable(entry),
        !(strategy is NoStrategy),
{
    match strategy {
        StrategyModel::SplitPaths { data_dir, executable_dir } => match section_of(entry) {
            Some(Section::Bin) => joined(executable_dir, remainder_of(entry, Section::Bin)),
            Some(section) => joined(data_dir, remainder_of(entry, section)),
            None => entry,
        },
        StrategyModel::SinglePath { root } => joined(root, entry),
        StrategyModel::NoStrategy => entry,
    }
}

/// The copy of an installable entry.
pub open spec fn copy_of(strategy: StrategyModel, entry: Seq<char>) -> CopyModel {
    CopyModel { source: entry, destination: destination_of(strategy, entry) }
}

/// The copies for the entries of an archive: one for each installable entry,
/// in the order of the entries.
pub open spec fn copies_of(strategy: StrategyModel, entries: Seq<Seq<char>>) -> Seq<CopyModel> {
    entries.filter(|entry: Seq<char>| installable(entry)).map_values(
        |entry: Seq<char>| copy_of(strategy, entry),
    )
}

/// The directories that a strategy has the installer create: with a single
/// path the root and its three section directories, else none.
pub open spec fn directories_of(strategy: StrategyModel) -> Seq<Seq<char>> {
    match strategy {
        StrategyModel::SinglePath { root } => seq![
            root,
            joined(root, section_name(Section::Bin)),
            joined(root, section_name(Section::Lib)),
            joined(root, section_name(Section::Include)),
        ],
        _ => Seq::empty(),
    }
}

/// The plan for the entries of an archive under a strategy.
pub open spec fn plan_of(strategy: StrategyModel, entries: Seq<Seq<char>>) -> PlanModel {
    PlanModel { directories: directories_of(strategy), copies: copies_of(strategy, entries) }
}

/// The directory of a section inside the archive.
pub fn section_dir(section: Section) -> (name: &'static str)
    ensures
        name@ == section_name(section),
{
    match section {
        Section::Bin => "bin",
        Section::Lib => "lib",
        Section::Include => "include",
    }
}

/// Whether the entry names a member of the section. `entry` holds the
/// characters of the entry.
fn in_section(entry: &Vec<char>, section: Section) -> (inside: Option<usize>)
    ensures
        inside is Some == lies_in(entry@, section),
        inside matches Some(n) ==> n == section_prefix(section).len(),
{
    let mut prefix = chars_of(section_dir(section));
    prefix.push(SEPARATOR);
    if starts_with_chars(entry, &prefix) && entry.len() > prefix.len() {
        Some(prefix.len())
    } else {
        None
    }
}

/// The section that an entry lies in, with the length of the section's
/// prefix. `entry` holds the characters of the entry.
fn find_section(entry: &Vec<char>) -> (found: Option<(Section, usize)>)
    ensures
        match found {
            Some((section, n)) => section_of(entry@) == Some(section) && n == section_prefix(
                section,
            ).len(),
            None => section_of(entry@) is None,
        },
{
    if let Some(n) = in_section(entry, Section::Bin) {
        Some((Section::Bin, n))
    } else if let Some(n) = in_section(entry, Section::Lib) {
        Some((Section::Lib, n))
    } else if let Some(n) = in_section(entry, Section::Include) {
        Some((Section::Include, n))
    } else {
        None
    }
}

/// The copy of an entry under a strategy, or `None` where the entry is not
/// installed or there is no strategy.
pub fn plan_copy(strategy: &InstallationStrategy, entry: &str) -> (step: Option<CopyStep>)
    ensures
        match step {
            Some(copy) => {
                &&& installable(entry@)
                &&& !(strategy@ is NoStrategy)
                &&& copy@ == copy_of(strategy@, entry@)
            },
            None => !installable(entry@) || strategy@ is NoStrategy,
        },
{
    if let InstallationStrategy::NoStrategy = strategy {
        return None;
    }
    let chars = chars_of(entry);
    if chars.len() > 0 && chars[chars.len() - 1] == SEPARATOR {
        return None;
    }
    match find_section(&chars) {
        Some((section, n)) => {
            let destination = match strategy {
                InstallationStrategy::SplitPaths { data_dir, executable_dir } => {
                    let rest = entry.substring_char(n, chars.len());
                    match section {
                        Section::Bin => join(executable_dir.as_str(), rest),
                        _ => join(data_dir.as_str(), rest),
                    }
                },
                InstallationStrategy::SinglePath { root } => join(root.as_str(), entry),
                InstallationStrategy::NoStrategy => String::from_str(entry),
            };
            Some(CopyStep { source: String::from_str(entry), destination })
        },
        None => None,
    }
}

/// The directories to create under a strategy.
pub fn plan_directories(strategy: &InstallationStrategy) -> (directories: Vec<String>)
    ensures
        directories.deep_view() == directories_of(strategy@),
{
    let mut directories: Vec<String> = Vec::new();
    match strategy {
        InstallationStrategy::SinglePath { root } => {
            directories.push(root.clone());
            directories.push(join(root.as_str(), section_dir(Section::Bin)));
            directories.push(join(root.as_str(), section_dir(Section::Lib)));
            directories.push(join(root.as_str(), section_dir(Section::Include)));
        },
        _ => {},
    }
    directories
}

/// Plans the installation of an extracted archive with the given entries.
///
/// Fails with `ResolutionAmbiguity` exactly where there is no strategy.
/// Otherwise every entry that names a regular file in `bin/`, `lib/` or
/// `include/` is copied, and every other entry is passed over.
pub fn plan_install(entries: &Vec<String>, strategy: &InstallationStrategy) -> (planned: Result<
    InstallPlan,
    ErrorKind,
>)
    ensures
        match strategy@ {
            StrategyModel::NoStrategy => planned == Err::<InstallPlan, ErrorKind>(
                ErrorKind::ResolutionAmbiguity,
            ),
            _ => planned matches Ok(plan) && plan@ == plan_of(strategy@, entries.deep_view()),
        },
{
    if let InstallationStrategy::NoStrategy = strategy {
        return Err(ErrorKind::ResolutionAmbiguity);
    }
    let ghost models = entries.deep_view();
    let ghost keep = |entry: Seq<char>| installable(entry);
    let ghost copy = |entry: Seq<char>| copy_of(strategy@, entry);
    let mut copies: Vec<CopyStep> = Vec::new();
    let mut i: usize = 0;
    while i < entries.len()
        invariant
            i <= entries.len(),
            !(strategy@ is NoStrategy),
            models == entries.deep_view(),
            models.len() == entries.len(),
            keep == (|entry: Seq<char>| installable(entry)),
            copy == (|entry: Seq<char>| copy_of(strategy@, entry)),
            copies.deep_view() == models.take(i as int).filter(keep).map_values(copy),
        decreases entries.len() - i,
    {
        let ghost before = copies.deep_view();
        proof {
            assert(models.take(i + 1) =~= models.take(i as int).push(models[i as int]));
            Seq::lemma_filter_push(models.take(i as int), models[i as int], keep);
        }
        match plan_copy(strategy, entries[i].as_str()) {
            Some(step) => {
                copies.push(step);
                assert(copies.deep_view() =~= before.push(step@));
            },
            None => {},
        }
        i += 1;
    }
    proof {
        assert(models.take(i as int) =~= models);
    }
    Ok(InstallPlan { directories: plan_directories(strategy), copies })
}

/// Entry by entry: an installable entry adds its copy behind the copies of
/// the entries before it, and any other entry adds nothing.
pub proof fn lemma_copies_step(strategy: StrategyModel, entries: Seq<Seq<char>>, entry: Seq<char>)
    ensures
        copies_of(strategy, Seq::empty()) == Seq::<CopyModel>::empty(),
        installable(entry) ==> copies_of(strategy, entries.push(entry)) == copies_of(
            strategy,
            entries,
        ).push(copy_of(strategy, entry)),
        !installable(entry) ==> copies_of(strategy, entries.push(entry)) == copies_of(
            strategy,
            entries,
        ),
{
    let keep = |entry: Seq<char>| installable(entry);
    let copy = |entry: Seq<char>| copy_of(strategy, entry);
    Seq::<Seq<char>>::empty().lemma_filter_len(keep);
    Seq::lemma_filter_push(entries, entry, keep);
    if installable(entry) {
        assert(entries.filter(keep).push(entry).map_values(copy) =~= entries.filter(
            keep,
        ).map_values(copy).push(copy(entry)));
    }
}

/// With split paths, a regular file `rest` of a section is copied without the
/// section's prefix: from `bin/` into the directory for executables, from
/// `lib/` and `include/` into the data directory.
pub proof fn lemma_split_destination(
    data_dir: Seq<char>,
    executable_dir: Seq<char>,
    section: Section,
    rest: Seq<char>,
)
    requires
        rest.len() > 0,
        rest.last() != SEPARATOR,
    ensures
        installable(section_prefix(section) + rest),
        destination_of(
            StrategyModel::SplitPaths { data_dir, executable_dir },
            section_prefix(section) + rest,
        ) == joined(
            if section == Section::Bin {
                executable_dir
            } else {
                data_dir
            },
            rest,
        ),
{
    lemma_section_of_member(section, rest);
}

/// With a single path, every installable entry is copied to its own path
/// below the root, section prefix included.
pub proof fn lemma_single_destination(root: Seq<char>, entry: Seq<char>)
    ensures
        destination_of(StrategyModel::SinglePath { root }, entry) == joined(root, entry),
{
}

/// An entry made of a section's prefix and something more lies in that
/// section, and in no other.
pub proof fn lemma_section_of_member(section: Section, rest: Seq<char>)
    requires
        rest.len() > 0,
    ensures
        section_of(section_prefix(section) + rest) == Some(section),
{
    reveal_strlit("bin");
    reveal_strlit("lib");
    reveal_strlit("include");
    let entry = section_prefix(section) + rest;
    let n = section_prefix(section).len() as int;
    assert(entry.take(n) =~= section_prefix(section));
    assert forall|other: Section| other != section implies !lies_in(entry, other) by {
        if has_prefix(entry, section_prefix(other)) {
            assert(entry[0] == section_prefix(section)[0]);
        }
    }
}

} // verus!
