use vstd::prelude::*;

use crate::error::StratisError;
use crate::ident::DevUuid;

verus! {

/// Whether two strings hold the same characters.
pub fn same_text(a: &str, b: &str) -> (r: bool)
    ensures
        r == (a@ == b@),
{
    let x = a.to_owned();
    let y = b.to_owned();
    x == y
}

/// How an encrypted volume is unlocked.
#[derive(Clone, Copy, PartialEq, Eq, Structural, Debug)]
pub enum UnlockMethod {
    Clevis,
    Keyring,
}

impl UnlockMethod {
    /// Reads an unlock method from its name, "keyring" or "clevis".
    pub fn try_from(s: &str) -> (r: Result<UnlockMethod, StratisError>)
        ensures
            (r is Ok && r->Ok_0 == UnlockMethod::Keyring) <==> s@ == "keyring"@,
            (r is Ok && r->Ok_0 == UnlockMethod::Clevis) <==> s@ == "clevis"@,
            r is Err ==> (r->Err_0 matches StratisError::InvalidUnlockMethod(n) && n@ == s@),
    {
        proof {
            reveal_strlit("keyring");
            reveal_strlit("clevis");
            assert("keyring"@.len() != "clevis"@.len());
        }
        if same_text(s, "keyring") {
            Ok(UnlockMethod::Keyring)
        } else if same_text(s, "clevis") {
            Ok(UnlockMethod::Clevis)
        } else {
            Err(StratisError::InvalidUnlockMethod(s.to_owned()))
        }
    }
}

/// The role of a block device within a pool: bulk data or fast cache.
#[derive(Clone, Copy, Debug, PartialEq, Eq, Structural)]
pub enum BlockDevTier {
    Data,
    Cache,
}

impl BlockDevTier {
    /// The small integer that stands for the tier in stored metadata.
    pub fn code(&self) -> (r: u8)
        ensures
            r == (match self {
                BlockDevTier::Data => 0u8,
                BlockDevTier::Cache => 1u8,
            }),
    {
        match self {
            BlockDevTier::Data => 0,
            BlockDevTier::Cache => 1,
        }
    }
}

/// The redundancy levels that the engine allows for a pool.
#[derive(Debug, PartialEq, Eq, Structural)]
#[allow(non_camel_case_types)]
pub enum Redundancy {
    NONE,
}

impl Redundancy {
    /// The small integer that stands for the level in stored metadata.
    pub fn code(&self) -> (r: u8)
        ensures
            r == 0,
    {
        0
    }
}

/// A name, compared by its characters.
#[derive(Debug, Eq, Hash, Clone)]
pub struct Name(String);

impl View for Name {
    type V = Seq<char>;

    closed spec fn view(&self) -> Seq<char> {
        self.0@
    }
}

impl Name {
    pub fn new(name: String) -> (r: Name)
        ensures
            r@ == name@,
    {
        Name(name)
    }

    /// A copy of the name as a plain string.
    pub fn to_owned(&self) -> (r: String)
        ensures
            r@ == self@,
    {
        self.0.clone()
    }

    /// The name as a plain string.
    pub fn as_str(&self) -> (r: &str)
        ensures
            r@ == self@,
    {
        self.0.as_str()
    }

    /// The name as text.
    pub fn to_string(&self) -> (r: String)
        ensures
            r@ == self@,
    {
        self.0.clone()
    }
}

impl PartialEq for Name {
    fn eq(&self, o: &Name) -> (r: bool) {
        self.0 == o.0
    }
}

impl vstd::std_specs::cmp::PartialEqSpecImpl for Name {
    open spec fn obeys_eq_spec() -> bool {
        true
    }

    open spec fn eq_spec(&self, o: &Name) -> bool {
        self@ == o@
    }
}

impl core::ops::Deref for Name {
    type Target = str;

    fn deref(&self) -> (r: &str)
        ensures
            r@ == self@,
    {
        self.0.as_str()
    }
}

/// The kinds of report that can be asked for.
#[derive(Debug, PartialEq, Eq, Structural)]
pub enum ReportType {
    /// The devices that caused an error while a pool was being set up.
    ErroredPoolDevices,
}

impl ReportType {
    /// Reads a report type from its name, "errored_pool_report".
    pub fn try_from(name: &str) -> (r: Result<ReportType, StratisError>)
        ensures
            r is Ok <==> name@ == "errored_pool_report"@,
            r is Ok ==> r->Ok_0 == ReportType::ErroredPoolDevices,
            r is Err ==> (r->Err_0 matches StratisError::UnknownReport(n) && n@ == name@),
    {
        proof {
            reveal_strlit("errored_pool_report");
        }
        if same_text(name, "errored_pool_report") {
            Ok(ReportType::ErroredPoolDevices)
        } else {
            Err(StratisError::UnknownReport(name.to_owned()))
        }
    }
}

/// The encryption metadata of a pool.
#[derive(Debug, Clone)]
pub struct EncryptionInfo {
    /// The description of the key in the kernel keyring, if any.
    pub key_description: Option<String>,
    /// The Clevis pin and its configuration, if any.
    pub clevis_info: Option<(String, String)>,
}

/// A device of a pool that is still locked.
pub struct LockedPoolDevice {
    pub devnode: String,
    pub uuid: DevUuid,
}

/// What is known of an encrypted pool before it is unlocked.
pub struct LockedPoolInfo {
    pub info: EncryptionInfo,
    pub devices: Vec<LockedPoolDevice>,
}

} // verus!
