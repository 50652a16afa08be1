//! Resolving the task template that the test runs: the configured one, or the
//! latest revision of the default family, created on first use.

use vstd::prelude::*;

verus! {

/// Family name of the default smoke-test template.
pub const DEFAULT_TASK_DEFINITION: &'static str = "testsys-bottlerocket-aws-default-ecs-smoke-test-v1";

/// Definition of a task template with a single essential container.
#[derive(Clone, Debug)]
pub struct TemplateDefinition {
    pub family: String,
    pub container_name: String,
    pub image: String,
    pub essential: bool,
    pub entry_point: Vec<String>,
    pub command: String,
    /// Compatible with tasks launched on EC2 container instances.
    pub ec2_compatible: bool,
    pub cpu: String,
    pub memory: String,
}

/// What a description of the default family showed.
#[derive(Clone, Debug)]
pub enum FamilyLookup {
    Found,
    /// The cluster reported that the family does not exist.
    NotFound,
    /// Any other failure, with its message.
    Failed(String),
}

/// What a call that reports a template revision returned.
#[derive(Clone, Debug)]
pub enum RevisionReply {
    Revision(i32),
    /// The call succeeded but reported no template.
    Missing,
    /// The call failed, with its message.
    Failed(String),
}

#[derive(Clone, Debug)]
pub enum TemplateError {
    DescribeFailed(String),
    CreateFailed(String),
    /// A call succeeded but reported no template.
    DefinitionMissing,
}

#[derive(Clone, Copy, Debug, PartialEq, Eq, Structural)]
pub enum ProvisionPhase {
    Start,
    Describing,
    FetchingLatest,
    Creating,
    Done,
}

/// What the caller does next while resolving the template.
#[derive(Clone, Debug)]
pub enum ProvisionAction {
    /// The template reference to run, `family:revision`.
    Resolved(String),
    DescribeFamily,
    FetchLatest,
    Create(TemplateDefinition),
    Failed(TemplateError),
}

/// Lookup-or-create of the template, one step per reply. Nothing guards the
/// creation against another run doing the same at once: two runs that both find
/// the family missing both create it. Create the family beforehand where runs
/// share a cluster's account.
#[derive(Clone, Copy, Debug)]
pub struct Provisioner {
    pub phase: ProvisionPhase,
}

pub open spec fn digit_char(d: nat) -> char {
    seq!['0', '1', '2', '3', '4', '5', '6', '7', '8', '9'][(d % 10) as int]
}

/// Decimal digits of `n`, with no leading zero.
pub open spec fn digits(n: nat) -> Seq<char>
    decreases n,
{
    if n < 10 {
        seq![digit_char(n)]
    } else {
        digits(n / 10).push(digit_char(n % 10))
    }
}

/// Decimal form of `n`, with a leading '-' when it is negative.
pub open spec fn decimal(n: int) -> Seq<char> {
    if n < 0 {
        seq!['-'] + digits((-n) as nat)
    } else {
        digits(n as nat)
    }
}

/// The reference `family:revision` of a template revision.
pub open spec fn reference(family: Seq<char>, revision: i32) -> Seq<char> {
    family + seq![':'] + decimal(revision as int)
}

/// Relies on std's `Display` for `i32` (through `to_string`): decimal digits,
/// '-' before a negative number.
#[verifier::external_body]
fn decimal_string(n: i32) -> (r: String)
    ensures
        r@ == decimal(n as int),
{
    n.to_string()
}

/// The reference `family:revision` of a revision of the default family.
pub fn default_reference(revision: i32) -> (r: String)
    ensures
        r@ == reference(DEFAULT_TASK_DEFINITION@, revision),
{
    let digits = decimal_string(revision);
    let r = String::from_str(DEFAULT_TASK_DEFINITION).concat(":").concat(digits.as_str());
    proof {
        reveal_strlit(":");
    }
    r
}

/// The smoke-test template: one essential container that echoes a line and exits.
pub fn smoke_test_definition() -> (r: TemplateDefinition)
    ensures
        r.family@ == DEFAULT_TASK_DEFINITION@,
        r.container_name@ == "ecs-smoke-test"@,
        r.image@ == "public.ecr.aws/amazonlinux/amazonlinux:2"@,
        r.essential,
        r.entry_point@.len() == 2,
        r.entry_point@[0]@ == "sh"@,
        r.entry_point@[1]@ == "-c"@,
        r.command@ == "/bin/sh -c \"echo hello-world\""@,
        r.ec2_compatible,
        r.cpu@ == "256"@,
        r.memory@ == "512"@,
{
    let mut entry_point: Vec<String> = Vec::new();
    entry_point.push(String::from_str("sh"));
    entry_point.push(String::from_str("-c"));
    TemplateDefinition {
        family: String::from_str(DEFAULT_TASK_DEFINITION),
        container_name: String::from_str("ecs-smoke-test"),
        image: String::from_str("public.ecr.aws/amazonlinux/amazonlinux:2"),
        essential: true,
        entry_point,
        command: String::from_str("/bin/sh -c \"echo hello-world\""),
        ec2_compatible: true,
        cpu: String::from_str("256"),
        memory: String::from_str("512"),
    }
}

/// The step after a reply that reports a revision of the default family, or
/// the failure that ends the lookup.
pub open spec fn revision_step_ok(reply: RevisionReply, r: ProvisionAction, created: bool) -> bool {
    match reply {
        RevisionReply::Revision(rev) => r is Resolved && r->Resolved_0@ == reference(
            DEFAULT_TASK_DEFINITION@,
            rev,
        ),
        RevisionReply::Missing => r is Failed && r->Failed_0 is DefinitionMissing,
        RevisionReply::Failed(msg) => r is Failed && if created {
            r->Failed_0 is CreateFailed && r->Failed_0->CreateFailed_0@ == msg@
        } else {
            r->Failed_0 is DescribeFailed && r->Failed_0->DescribeFailed_0@ == msg@
        },
    }
}

impl Provisioner {
    pub fn new() -> (r: Provisioner)
        ensures
            r.phase == ProvisionPhase::Start,
    {
        Provisioner { phase: ProvisionPhase::Start }
    }

    /// A configured reference is used as it is, with no call to the cluster;
    /// otherwise the default family is described.
    pub fn start(&mut self, configured: &Option<String>) -> (r: ProvisionAction)
        requires
            old(self).phase == ProvisionPhase::Start,
        ensures
            configured is Some ==> final(self).phase == ProvisionPhase::Done && r is Resolved
                && r->Resolved_0@ == configured->Some_0@,
            configured is None ==> final(self).phase == ProvisionPhase::Describing && r
                is DescribeFamily,
    {
        match configured {
            Some(reference) => {
                self.phase = ProvisionPhase::Done;
                ProvisionAction::Resolved(reference.clone())
            },
            None => {
                self.phase = ProvisionPhase::Describing;
                ProvisionAction::DescribeFamily
            },
        }
    }

    /// An existing family leads to a fetch of its latest revision, a missing
    /// one to its creation; any other failure ends the lookup, creating nothing.
    pub fn on_family(&mut self, lookup: FamilyLookup) -> (r: ProvisionAction)
        requires
            old(self).phase == ProvisionPhase::Describing,
        ensures
            lookup is Found ==> final(self).phase == ProvisionPhase::FetchingLatest && r
                is FetchLatest,
            lookup is NotFound ==> final(self).phase == ProvisionPhase::Creating && r is Create
                && r->Create_0.family@ == DEFAULT_TASK_DEFINITION@,
            lookup is Failed ==> final(self).phase == ProvisionPhase::Done && r is Failed
                && r->Failed_0 is DescribeFailed && r->Failed_0->DescribeFailed_0@
                == lookup->Failed_0@,
    {
        match lookup {
            FamilyLookup::Found => {
                self.phase = ProvisionPhase::FetchingLatest;
                ProvisionAction::FetchLatest
            },
            FamilyLookup::NotFound => {
                self.phase = ProvisionPhase::Creating;
                ProvisionAction::Create(smoke_test_definition())
            },
            FamilyLookup::Failed(msg) => {
                self.phase = ProvisionPhase::Done;
                ProvisionAction::Failed(TemplateError::DescribeFailed(msg))
            },
        }
    }

    /// Decides on the latest revision of the existing family.
    pub fn on_latest(&mut self, reply: RevisionReply) -> (r: ProvisionAction)
        requires
            old(self).phase == ProvisionPhase::FetchingLatest,
        ensures
            final(self).phase == ProvisionPhase::Done,
            revision_step_ok(reply, r, false),
    {
        self.phase = ProvisionPhase::Done;
        match reply {
            RevisionReply::Revision(rev) => ProvisionAction::Resolved(default_reference(rev)),
            RevisionReply::Missing => ProvisionAction::Failed(TemplateError::DefinitionMissing),
            RevisionReply::Failed(msg) => ProvisionAction::Failed(TemplateError::DescribeFailed(msg)),
        }
    }

    /// Decides on the revision that the creation of the family assigned.
    pub fn on_created(&mut self, reply: RevisionReply) -> (r: ProvisionAction)
        requires
            old(self).phase == ProvisionPhase::Creating,
        ensures
            final(self).phase == ProvisionPhase::Done,
            revision_step_ok(reply, r, true),
    {
        self.phase = ProvisionPhase::Done;
        match reply {
            RevisionReply::Revision(rev) => ProvisionAction::Resolved(default_reference(rev)),
            RevisionReply::Missing => ProvisionAction::Failed(TemplateError::DefinitionMissing),
            RevisionReply::Failed(msg) => ProvisionAction::Failed(TemplateError::CreateFailed(msg)),
        }
    }
}

} // verus!
