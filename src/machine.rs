use vstd::prelude::*;

verus! {

/// A setting of a machine in the machine configuration.
#[derive(Clone, Copy, Debug, PartialEq, Eq, Structural)]
pub enum MachineAttr {
    PostFolder,
    ProductionFolder,
    ArchiveFolder,
    Extension,
}

/// The element name under which a setting is stored.
pub open spec fn tag_of(attr: MachineAttr) -> Seq<char> {
    match attr {
        MachineAttr::PostFolder => "SourceNCFolder"@,
        MachineAttr::ProductionFolder => "OutputNCFolder"@,
        MachineAttr::ArchiveFolder => "ArchiveNCFolder"@,
        MachineAttr::Extension => "NCFileExtension"@,
    }
}

impl MachineAttr {
    /// The element name under which this setting is stored.
    pub fn xml_tag(&self) -> (r: &'static str)
        ensures
            r@ == tag_of(*self),
    {
        match self {
            MachineAttr::PostFolder => "SourceNCFolder",
            MachineAttr::ProductionFolder => "OutputNCFolder",
            MachineAttr::ArchiveFolder => "ArchiveNCFolder",
            MachineAttr::Extension => "NCFileExtension",
        }
    }
}

/// One machine of the machine list, with the settings that its entry
/// holds; a setting the entry lacks is `None`.
#[derive(Clone, Debug)]
pub struct Machine {
    pub name: Option<String>,
    pub post_folder: Option<String>,
    pub production_folder: Option<String>,
    pub archive_folder: Option<String>,
    pub extension: Option<String>,
}

impl Machine {
    pub open spec fn setting(&self, attr: MachineAttr) -> Option<String> {
        match attr {
            MachineAttr::PostFolder => self.post_folder,
            MachineAttr::ProductionFolder => self.production_folder,
            MachineAttr::ArchiveFolder => self.archive_folder,
            MachineAttr::Extension => self.extension,
        }
    }

    /// The value of one setting.
    pub fn get(&self, attr: MachineAttr) -> (r: &Option<String>)
        ensures
            *r == self.setting(attr),
    {
        match attr {
            MachineAttr::PostFolder => &self.post_folder,
            MachineAttr::ProductionFolder => &self.production_folder,
            MachineAttr::ArchiveFolder => &self.archive_folder,
            MachineAttr::Extension => &self.extension,
        }
    }
}

/// A lookup in the machine configuration that found nothing.
#[derive(Debug)]
pub enum ConfigError {
    /// No machine of this name, or the machine lacks the setting.
    MachineNotFound(String),
}

/// A character with ASCII lower-case letters taken to upper case.
pub open spec fn ascii_upper(c: char) -> u32 {
    if 'a' <= c && c <= 'z' {
        (c as u32 - 32) as u32
    } else {
        c as u32
    }
}

/// Whether two texts are equal once ASCII letters are taken to upper case.
pub open spec fn same_name(a: Seq<char>, b: Seq<char>) -> bool {
    a.len() == b.len() && forall|i: int| 0 <= i < a.len() ==> ascii_upper(#[trigger] a[i]) == ascii_upper(b[i])
}

/// Whether a machine entry carries the name `name`, ignoring ASCII case.
pub open spec fn is_named(m: Machine, name: Seq<char>) -> bool {
    m.name is Some && same_name(m.name->Some_0@, name)
}

/// The first machine named `name`, ignoring ASCII case.
pub open spec fn first_named(machines: Seq<Machine>, name: Seq<char>) -> Option<Machine>
    decreases machines.len(),
{
    if machines.len() == 0 {
        None
    } else if is_named(machines[0], name) {
        Some(machines[0])
    } else {
        first_named(machines.drop_first(), name)
    }
}

/// What looking up a setting of the machine `name` gives: the setting of
/// the first machine of that name, or nothing.
pub open spec fn machine_setting(machines: Seq<Machine>, name: Seq<char>, attr: MachineAttr) -> Option<Seq<char>> {
    match first_named(machines, name) {
        Some(m) => match m.setting(attr) {
            Some(s) => Some(s@),
            None => None,
        },
        None => None,
    }
}

fn upper(c: char) -> (r: u32)
    ensures
        r == ascii_upper(c),
{
    if 'a' <= c && c <= 'z' {
        c as u32 - 32
    } else {
        c as u32
    }
}

fn names_match(a: &str, b: &str) -> (r: bool)
    ensures
        r == same_name(a@, b@),
{
    let n = a.unicode_len();
    if n != b.unicode_len() {
        return false;
    }
    let mut i: usize = 0;
    while i < n
        invariant
            n == a@.len(),
            n == b@.len(),
            i <= n,
            forall|j: int| 0 <= j < i ==> ascii_upper(#[trigger] a@[j]) == ascii_upper(b@[j]),
        decreases n - i,
    {
        if upper(a.get_char(i)) != upper(b.get_char(i)) {
            return false;
        }
        i += 1;
    }
    true
}

/// Looks up one setting of the machine named `name` (ignoring ASCII case)
/// in the machine list; the first machine of that name decides.
pub fn get_machine_config(machines: &Vec<Machine>, name: &str, attr: MachineAttr) -> (r: Result<String, ConfigError>)
    ensures
        match machine_setting(machines@, name@, attr) {
            Some(s) => r is Ok && r->Ok_0@ == s,
            None => r is Err && r->Err_0->MachineNotFound_0@ == name@,
        },
{
    let mut i: usize = 0;
    assert(machines@.subrange(0, machines@.len() as int) =~= machines@);
    while i < machines.len()
        invariant
            i <= machines@.len(),
            first_named(machines@, name@) == first_named(machines@.subrange(i as int, machines@.len() as int), name@),
        decreases machines@.len() - i,
    {
        let m = &machines[i];
        assert(machines@.subrange(i as int, machines@.len() as int).drop_first()
            =~= machines@.subrange(i + 1, machines@.len() as int));
        let named = match &m.name {
            Some(n) => names_match(n.as_str(), name),
            None => false,
        };
        if named {
            return match m.get(attr) {
                Some(s) => Ok(s.clone()),
                None => Err(ConfigError::MachineNotFound(name.to_owned())),
            };
        }
        i += 1;
    }
    Err(ConfigError::MachineNotFound(name.to_owned()))
}

/// The NC file extension of the machine named `name`.
pub fn get_machine_extension(machines: &Vec<Machine>, name: &str) -> (r: Result<String, ConfigError>)
    ensures
        match machine_setting(machines@, name@, MachineAttr::Extension) {
            Some(s) => r is Ok && r->Ok_0@ == s,
            None => r is Err && r->Err_0->MachineNotFound_0@ == name@,
        },
{
    get_machine_config(machines, name, MachineAttr::Extension)
}

} // verus!
