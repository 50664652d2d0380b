//! The two configuration documents, as trees of optional sections, and what
//! each of their fields holds when every enclosing section is present.

use vstd::prelude::*;

verus! {

/// The `builder` section of the tool configuration.
#[derive(Debug, Clone)]
pub struct BuilderConfig {
    pub target: Option<String>,
}

/// The `filter` section of the tool configuration.
#[derive(Debug, Clone)]
pub struct FilterConfig {
    pub host: Option<String>,
    pub device: Option<String>,
}

/// The `console` section of the tool configuration.
#[derive(Debug, Clone)]
pub struct ConsoleConfig {
    pub path: Option<String>,
}

/// The `itm` section of the tool configuration.
#[derive(Debug, Clone)]
pub struct ItmConfig {
    pub target_clock: Option<u32>,
}

/// The `loader` section of the tool configuration.
#[derive(Debug, Clone)]
pub struct LoaderConfig {
    pub jlink_device: Option<String>,
    pub teensy_mcu: Option<String>,
    pub blackmagic_mode: Option<String>,
}

/// The tool's own configuration document. Every section may be missing.
#[derive(Debug, Clone)]
pub struct BobbinConfig {
    pub builder: Option<BuilderConfig>,
    pub filter: Option<FilterConfig>,
    pub console: Option<ConsoleConfig>,
    pub itm: Option<ItmConfig>,
    pub loader: Option<LoaderConfig>,
}

/// The `build` section of the build system's configuration.
#[derive(Debug, Clone)]
pub struct CargoBuild {
    pub target: Option<String>,
}

/// The build system's configuration document.
///
/// `target` lists the names under which the document's `target` table defines
/// targets, one per definition. The definitions themselves are not kept: no
/// setting is read from them. A name that is listed twice stands for one entry
/// of the table.
#[derive(Debug, Clone)]
pub struct CargoConfig {
    pub build: Option<CargoBuild>,
    pub target: Option<Vec<String>>,
}

/// The characters of an optional owned string.
pub open spec fn text(s: Option<String>) -> Option<Seq<char>> {
    match s {
        Some(v) => Some(v@),
        None => None,
    }
}

/// The characters of an optional borrowed string.
pub open spec fn str_text(s: Option<&str>) -> Option<Seq<char>> {
    match s {
        Some(v) => Some(v@),
        None => None,
    }
}

/// The first of two candidates that is present.
pub open spec fn first_of<T>(a: Option<T>, b: Option<T>) -> Option<T> {
    if a is Some {
        a
    } else {
        b
    }
}

/// The keys of a table whose entries are listed by name.
pub open spec fn target_keys(names: Seq<String>) -> Set<Seq<char>> {
    Set::new(|k: Seq<char>| exists|i: int| 0 <= i < names.len() && #[trigger] names[i]@ == k)
}

/// The key of a table that has exactly one; nothing for an empty table and for
/// one with two or more keys.
pub open spec fn sole_key(keys: Set<Seq<char>>) -> Option<Seq<char>> {
    if exists|k: Seq<char>| keys == set![k] {
        Some(choose|k: Seq<char>| keys == set![k])
    } else {
        None
    }
}

impl BobbinConfig {
    /// `builder.target`.
    pub open spec fn builder_target(self) -> Option<Seq<char>> {
        match self.builder {
            Some(s) => text(s.target),
            None => None,
        }
    }

    /// `filter.host`.
    pub open spec fn filter_host(self) -> Option<Seq<char>> {
        match self.filter {
            Some(s) => text(s.host),
            None => None,
        }
    }

    /// `filter.device`.
    pub open spec fn filter_device(self) -> Option<Seq<char>> {
        match self.filter {
            Some(s) => text(s.device),
            None => None,
        }
    }

    /// `console.path`.
    pub open spec fn console_path(self) -> Option<Seq<char>> {
        match self.console {
            Some(s) => text(s.path),
            None => None,
        }
    }

    /// `itm.targetClock`.
    pub open spec fn itm_target_clock(self) -> Option<u32> {
        match self.itm {
            Some(s) => s.target_clock,
            None => None,
        }
    }

    /// `loader.jlinkDevice`.
    pub open spec fn loader_jlink_device(self) -> Option<Seq<char>> {
        match self.loader {
            Some(s) => text(s.jlink_device),
            None => None,
        }
    }

    /// `loader.teensyMcu`.
    pub open spec fn loader_teensy_mcu(self) -> Option<Seq<char>> {
        match self.loader {
            Some(s) => text(s.teensy_mcu),
            None => None,
        }
    }

    /// `loader.blackmagicMode`.
    pub open spec fn loader_blackmagic_mode(self) -> Option<Seq<char>> {
        match self.loader {
            Some(s) => text(s.blackmagic_mode),
            None => None,
        }
    }
}

impl CargoConfig {
    /// `build.target`.
    pub open spec fn build_target(self) -> Option<Seq<char>> {
        match self.build {
            Some(s) => text(s.target),
            None => None,
        }
    }

    /// The one key of the `target` table, where it has exactly one.
    pub open spec fn implied_target(self) -> Option<Seq<char>> {
        match self.target {
            Some(names) => sole_key(target_keys(names@)),
            None => None,
        }
    }

    /// The target that the document names: `build.target` first, then the one
    /// key of the `target` table.
    pub open spec fn target_choice(self) -> Option<Seq<char>> {
        first_of(self.build_target(), self.implied_target())
    }
}

/// Borrows what an optional string holds.
pub fn as_text(s: &Option<String>) -> (r: Option<&str>)
    ensures
        str_text(r) == text(*s),
{
    match s {
        Some(v) => Some(v.as_str()),
        None => None,
    }
}

/// The name of the only entry of a table whose entries are listed by name.
///
/// Returns a name exactly when all the listed names are one and the same, so
/// that the table has a single key.
pub fn single_key(names: &Vec<String>) -> (r: Option<&str>)
    ensures
        str_text(r) == sole_key(target_keys(names@)),
{
    let n: usize = names.len();
    if n == 0 {
        proof {
            assert forall|k: Seq<char>| target_keys(names@) != set![k] by {
                assert(set![k].contains(k));
            }
        }
        return None;
    }
    let first: &String = &names[0];
    let mut i: usize = 1;
    while i < n
        invariant
            1 <= i <= n,
            n == names.len(),
            first@ == names[0]@,
            forall|j: int| 0 <= j < i ==> (#[trigger] names[j])@ == first@,
        decreases n - i,
    {
        if !(names[i] == *first) {
            proof {
                let ghost other = names[i as int]@;
                assert forall|k: Seq<char>| target_keys(names@) != set![k] by {
                    assert(target_keys(names@).contains(first@));
                    assert(target_keys(names@).contains(other));
                    if target_keys(names@) == set![k] {
                        assert(set![k].contains(first@));
                        assert(set![k].contains(other));
                    }
                }
            }
            return None;
        }
        i += 1;
    }
    proof {
        assert(target_keys(names@).contains(first@));
        assert(target_keys(names@) =~= set![first@]);
        let k = choose|k: Seq<char>| target_keys(names@) == set![k];
        assert(set![k].contains(first@));
    }
    Some(first.as_str())
}

} // verus!
