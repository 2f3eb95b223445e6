use vstd::prelude::*;

verus! {

/// The failure of a utility command, with its message.
#[derive(Debug)]
pub struct ExecutableError(pub String);

impl ExecutableError {
    /// The message of the failure.
    pub fn message(&self) -> (r: String)
        ensures
            r@ == self.0@,
    {
        self.0.clone()
    }
}

/// A utility command that can be run by its name.
pub trait UtilCommand {
    /// The name under which the command is invoked.
    fn name(&self) -> &'static str;
}

/// The utility commands that are shipped.
#[derive(Clone, Copy, Debug, PartialEq, Eq, Structural)]
pub enum UtilCommandKind {
    /// Predicts the space that a pool or filesystem will use.
    PredictUsage,
    /// Writes the unit files that set up pools at boot.
    SetupGenerator,
    /// Writes the unit files that set up Clevis-bound pools at boot.
    ClevisSetupGenerator,
}

impl UtilCommandKind {
    pub open spec fn spec_name(&self) -> Seq<char> {
        match self {
            UtilCommandKind::PredictUsage => "stratis-predict-usage"@,
            UtilCommandKind::SetupGenerator => "stratis-setup-generator"@,
            UtilCommandKind::ClevisSetupGenerator => "stratis-clevis-setup-generator"@,
        }
    }

    /// The name under which the command is invoked.
    pub fn command_name(&self) -> (r: &'static str)
        ensures
            r@ == self.spec_name(),
    {
        proof {
            reveal_strlit("stratis-predict-usage");
            reveal_strlit("stratis-setup-generator");
            reveal_strlit("stratis-clevis-setup-generator");
        }
        match self {
            UtilCommandKind::PredictUsage => "stratis-predict-usage",
            UtilCommandKind::SetupGenerator => "stratis-setup-generator",
            UtilCommandKind::ClevisSetupGenerator => "stratis-clevis-setup-generator",
        }
    }
}

impl UtilCommand for UtilCommandKind {
    fn name(&self) -> &'static str {
        self.command_name()
    }
}

/// Every utility command, the usage predictor first, then the two generators.
pub fn cmds() -> (r: Vec<UtilCommandKind>)
    ensures
        r@ == seq![
            UtilCommandKind::PredictUsage,
            UtilCommandKind::SetupGenerator,
            UtilCommandKind::ClevisSetupGenerator,
        ],
{
    let r = vec![
        UtilCommandKind::PredictUsage,
        UtilCommandKind::SetupGenerator,
        UtilCommandKind::ClevisSetupGenerator,
    ];
    assert(r@ =~= seq![
        UtilCommandKind::PredictUsage,
        UtilCommandKind::SetupGenerator,
        UtilCommandKind::ClevisSetupGenerator,
    ]);
    r
}

/// The command of the given name, if there is one.
pub fn find_command(name: &str) -> (r: Option<UtilCommandKind>)
    ensures
        match r {
            Some(k) => k.spec_name() == name@,
            None => forall|k: UtilCommandKind| k.spec_name() != name@,
        },
{
    let all = cmds();
    let mut i: usize = 0;
    while i < all.len()
        invariant
            all@ == seq![
                UtilCommandKind::PredictUsage,
                UtilCommandKind::SetupGenerator,
                UtilCommandKind::ClevisSetupGenerator,
            ],
            0 <= i <= all@.len(),
            forall|j: int| 0 <= j < i ==> (#[trigger] all@[j]).spec_name() != name@,
        decreases all@.len() - i,
    {
        let k = all[i];
        if crate::types::same_text(k.command_name(), name) {
            return Some(k);
        }
        i = i + 1;
    }
    proof {
        assert forall|k: UtilCommandKind| k.spec_name() != name@ by {
            match k {
                UtilCommandKind::PredictUsage => assert(all@[0] == k),
                UtilCommandKind::SetupGenerator => assert(all@[1] == k),
                UtilCommandKind::ClevisSetupGenerator => assert(all@[2] == k),
            }
        }
    }
    None
}

} // verus!
