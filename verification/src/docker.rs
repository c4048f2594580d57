//! How Docker is installed and started on a machine that has none: which commands,
//! in which order, and what is reported when one of them fails.

use vstd::prelude::*;
use crate::text::{contains_text, joined, occurs_in, owned, same_text, texts_view};

verus! {

/// One command of an installation, and what to report when it fails.
#[derive(Debug)]
pub struct Step {
    /// The program to run.
    pub program: String,
    /// Its arguments.
    pub args: Vec<String>,
    /// The beginning of the report when the command fails.
    pub failure: String,
}

/// The mathematical view of a [`Step`].
pub struct StepView {
    pub program: Seq<char>,
    pub args: Seq<Seq<char>>,
    pub failure: Seq<char>,
}

impl View for Step {
    type V = StepView;

    open spec fn view(&self) -> StepView {
        StepView { program: self.program@, args: texts_view(self.args@), failure: self.failure@ }
    }
}

/// The views of a list of steps.
pub open spec fn steps_view(steps: Seq<Step>) -> Seq<StepView> {
    Seq::new(steps.len(), |i: int| steps[i]@)
}

/// The systems on which Docker can be installed.
#[derive(Debug, Clone, Copy, PartialEq, Eq, Structural)]
pub enum Platform {
    MacOs,
    Linux,
}

/// The platform that an operating system's name stands for, or the complaint about a
/// name that stands for none.
pub open spec fn platform_of(os: Seq<char>) -> Result<Platform, Seq<char>> {
    if os == "macos"@ {
        Ok(Platform::MacOs)
    } else if os == "linux"@ {
        Ok(Platform::Linux)
    } else {
        Err("Unsupported operating system: "@ + os)
    }
}

/// Finds the platform for the name of an operating system.
pub fn platform(os: &str) -> (res: Result<Platform, String>)
    ensures
        match res {
            Ok(p) => platform_of(os@) == Ok::<Platform, Seq<char>>(p),
            Err(e) => platform_of(os@) == Err::<Platform, Seq<char>>(e@),
        },
{
    if same_text(os, "macos") {
        Ok(Platform::MacOs)
    } else if same_text(os, "linux") {
        Ok(Platform::Linux)
    } else {
        Err(joined("Unsupported operating system: ", os))
    }
}

/// What is to be done about Docker: nothing where it answers, and otherwise an
/// installation on the platform of the operating system, if that is one on which
/// Docker can be installed.
pub open spec fn docker_need(answers: bool, os: Seq<char>) -> Result<Option<Platform>, Seq<char>> {
    if answers {
        Ok(None)
    } else {
        match platform_of(os) {
            Ok(p) => Ok(Some(p)),
            Err(e) => Err(e),
        }
    }
}

/// Decides what is to be done about Docker, given whether it answered and the name of
/// the operating system.
pub fn ensure_docker_running(answers: bool, os: &str) -> (res: Result<Option<Platform>, String>)
    ensures
        match res {
            Ok(need) => docker_need(answers, os@) == Ok::<Option<Platform>, Seq<char>>(need),
            Err(e) => docker_need(answers, os@) == Err::<Option<Platform>, Seq<char>>(e@),
        },
{
    if answers {
        return Ok(None);
    }
    match platform(os) {
        Ok(p) => Ok(Some(p)),
        Err(e) => Err(e),
    }
}

/// A step, as mathematics, from its words.
pub open spec fn step_of(program: Seq<char>, args: Seq<Seq<char>>, failure: Seq<char>) -> StepView {
    StepView { program, args, failure }
}

/// The steps on macOS, where Homebrew installs Docker; without Homebrew there is
/// nothing to do but complain.
pub open spec fn macos_plan(homebrew: bool) -> Result<Seq<StepView>, Seq<char>> {
    if homebrew {
        Ok(
            seq![
                step_of("brew"@, seq!["install"@, "docker"@], "Failed to install Docker"@),
                step_of("open"@, seq!["-a"@, "Docker"@], "Failed to start Docker"@),
            ],
        )
    } else {
        Err("Homebrew is not installed. Please install Homebrew first."@)
    }
}

/// The steps on Linux, by what the release file of the distribution says: `apt-get`
/// on Ubuntu and Debian, `yum` on CentOS and Fedora, and then the service is started
/// and enabled. Any other distribution is refused.
pub open spec fn linux_plan(os_release: Seq<char>) -> Result<Seq<StepView>, Seq<char>> {
    let service = seq![
        step_of(
            "sudo"@,
            seq!["systemctl"@, "start"@, "docker"@],
            "Failed to start Docker service"@,
        ),
        step_of(
            "sudo"@,
            seq!["systemctl"@, "enable"@, "docker"@],
            "Failed to enable Docker service"@,
        ),
    ];
    if occurs_in("Ubuntu"@, os_release) || occurs_in("Debian"@, os_release) {
        Ok(
            seq![
                step_of("sudo"@, seq!["apt-get"@, "update"@], "Failed to update package list"@),
                step_of(
                    "sudo"@,
                    seq!["apt-get"@, "install"@, "-y"@, "docker"@],
                    "Failed to install Docker"@,
                ),
            ] + service,
        )
    } else if occurs_in("CentOS"@, os_release) || occurs_in("Fedora"@, os_release) {
        Ok(
            seq![
                step_of(
                    "sudo"@,
                    seq!["yum"@, "install"@, "-y"@, "docker"@],
                    "Failed to install Docker"@,
                ),
            ] + service,
        )
    } else {
        Err("Unsupported Linux distribution"@)
    }
}

/// What a list of steps or a complaint is, as mathematics.
pub open spec fn plan_view(plan: Result<Vec<Step>, String>) -> Result<Seq<StepView>, Seq<char>> {
    match plan {
        Ok(steps) => Ok(steps_view(steps@)),
        Err(e) => Err(e@),
    }
}

/// `plan` is the plan that was `expected`: the same steps, one by one, or the same
/// complaint.
pub open spec fn planned(
    expected: Result<Seq<StepView>, Seq<char>>,
    plan: Result<Vec<Step>, String>,
) -> bool {
    &&& plan_view(plan) == expected
    &&& match plan {
        Ok(steps) => {
            &&& expected is Ok
            &&& steps@.len() == expected->Ok_0.len()
            &&& forall|i: int| 0 <= i < steps@.len() ==> (#[trigger] steps@[i])@ == expected->Ok_0[i]
        },
        Err(e) => expected == Err::<Seq<StepView>, Seq<char>>(e@),
    }
}

fn step2(program: &str, a: &str, b: &str, failure: &str) -> (s: Step)
    ensures
        s@ == step_of(program@, seq![a@, b@], failure@),
{
    let mut args: Vec<String> = Vec::new();
    args.push(owned(a));
    args.push(owned(b));
    assert(texts_view(args@) =~= seq![a@, b@]);
    Step { program: owned(program), args, failure: owned(failure) }
}

fn step3(program: &str, a: &str, b: &str, c: &str, failure: &str) -> (s: Step)
    ensures
        s@ == step_of(program@, seq![a@, b@, c@], failure@),
{
    let mut args: Vec<String> = Vec::new();
    args.push(owned(a));
    args.push(owned(b));
    args.push(owned(c));
    assert(texts_view(args@) =~= seq![a@, b@, c@]);
    Step { program: owned(program), args, failure: owned(failure) }
}

fn step4(program: &str, a: &str, b: &str, c: &str, d: &str, failure: &str) -> (s: Step)
    ensures
        s@ == step_of(program@, seq![a@, b@, c@, d@], failure@),
{
    let mut args: Vec<String> = Vec::new();
    args.push(owned(a));
    args.push(owned(b));
    args.push(owned(c));
    args.push(owned(d));
    assert(texts_view(args@) =~= seq![a@, b@, c@, d@]);
    Step { program: owned(program), args, failure: owned(failure) }
}

/// The steps that install and start Docker on macOS.
pub fn install_and_start_docker_macos(homebrew: bool) -> (plan: Result<Vec<Step>, String>)
    ensures
        planned(macos_plan(homebrew), plan),
{
    if !homebrew {
        return Err(owned("Homebrew is not installed. Please install Homebrew first."));
    }
    let mut steps: Vec<Step> = Vec::new();
    steps.push(step2("brew", "install", "docker", "Failed to install Docker"));
    steps.push(step2("open", "-a", "Docker", "Failed to start Docker"));
    assert(steps_view(steps@) =~= macos_plan(homebrew)->Ok_0);
    Ok(steps)
}

/// The steps that install and start Docker on Linux, for what the release file of the
/// distribution says.
pub fn install_and_start_docker_linux(os_release: &str) -> (plan: Result<Vec<Step>, String>)
    ensures
        planned(linux_plan(os_release@), plan),
{
    let mut steps: Vec<Step> = Vec::new();
    if contains_text(os_release, "Ubuntu") || contains_text(os_release, "Debian") {
        steps.push(step2("sudo", "apt-get", "update", "Failed to update package list"));
        steps.push(step4("sudo", "apt-get", "install", "-y", "docker", "Failed to install Docker"));
    } else if contains_text(os_release, "CentOS") || contains_text(os_release, "Fedora") {
        steps.push(step4("sudo", "yum", "install", "-y", "docker", "Failed to install Docker"));
    } else {
        return Err(owned("Unsupported Linux distribution"));
    }
    steps.push(step3("sudo", "systemctl", "start", "docker", "Failed to start Docker service"));
    steps.push(step3("sudo", "systemctl", "enable", "docker", "Failed to enable Docker service"));
    assert(steps_view(steps@) =~= linux_plan(os_release@)->Ok_0);
    Ok(steps)
}

} // verus!
