use trace_store::cmd::{command_failure, missing_file, pdm_arguments};
use trace_store::docker::{
    ensure_docker_running, install_and_start_docker_linux, install_and_start_docker_macos,
    platform, Platform, Step,
};

fn words(step: &Step) -> Vec<String> {
    let mut all = vec![step.program.clone()];
    all.extend(step.args.iter().cloned());
    all
}

fn lines(steps: &Vec<Step>) -> Vec<String> {
    steps.iter().map(|s| words(s).join(" ")).collect()
}

#[test]
fn a_script_runs_under_pdm() {
    let given = vec!["--fast".to_string(), "input.csv".to_string()];
    assert_eq!(pdm_arguments("job.py", Some(&given), false), vec!["run", "job.py", "--fast", "input.csv"]);
    assert_eq!(pdm_arguments("job.py", Some(&given), true), vec!["run", "job.py", "--fast", "input.csv"]);
    assert_eq!(pdm_arguments("job.py", Some(&vec![]), false), vec!["run", "job.py"]);
}

#[test]
fn a_script_without_arguments() {
    assert_eq!(pdm_arguments("job.py", None, false), vec!["run", "job.py", ""]);
    assert_eq!(pdm_arguments("job.py", None, true), vec!["run", "job.py"]);
}

#[test]
fn the_report_of_a_failed_command() {
    assert_eq!(
        command_failure("make", "exit status: 2"),
        "Command 'make' failed with status: exit status: 2"
    );
    assert_eq!(command_failure("", ""), "Command '' failed with status: ");
}

#[test]
fn platforms_by_name() {
    assert_eq!(platform("macos"), Ok(Platform::MacOs));
    assert_eq!(platform("linux"), Ok(Platform::Linux));
    assert_eq!(platform("windows"), Err("Unsupported operating system: windows".to_string()));
    assert_eq!(platform("Linux"), Err("Unsupported operating system: Linux".to_string()));
    assert_eq!(platform(""), Err("Unsupported operating system: ".to_string()));
}

#[test]
fn macos_installs_with_homebrew() {
    let steps = install_and_start_docker_macos(true).unwrap();
    assert_eq!(lines(&steps), vec!["brew install docker", "open -a Docker"]);
    assert_eq!(steps[0].failure, "Failed to install Docker");
    assert_eq!(steps[1].failure, "Failed to start Docker");
    assert_eq!(
        install_and_start_docker_macos(false).err(),
        Some("Homebrew is not installed. Please install Homebrew first.".to_string())
    );
}

#[test]
fn debian_and_ubuntu_install_with_apt() {
    for release in ["NAME=\"Ubuntu\"\nVERSION=\"22.04\"", "PRETTY_NAME=\"Debian GNU/Linux 12\"", "Ubuntu", "CentOS on Debian"] {
        let steps = install_and_start_docker_linux(release).unwrap();
        assert_eq!(
            lines(&steps),
            vec![
                "sudo apt-get update",
                "sudo apt-get install -y docker",
                "sudo systemctl start docker",
                "sudo systemctl enable docker",
            ]
        );
        assert_eq!(steps[0].failure, "Failed to update package list");
        assert_eq!(steps[1].failure, "Failed to install Docker");
        assert_eq!(steps[2].failure, "Failed to start Docker service");
        assert_eq!(steps[3].failure, "Failed to enable Docker service");
    }
}

#[test]
fn centos_and_fedora_install_with_yum() {
    for release in ["NAME=\"CentOS Stream\"", "NAME=Fedora"] {
        let steps = install_and_start_docker_linux(release).unwrap();
        assert_eq!(
            lines(&steps),
            vec![
                "sudo yum install -y docker",
                "sudo systemctl start docker",
                "sudo systemctl enable docker",
            ]
        );
        assert_eq!(steps[0].failure, "Failed to install Docker");
    }
}

#[test]
fn other_distributions_are_refused() {
    for release in ["", "NAME=\"Arch Linux\"", "ubuntu", "Fedor a"] {
        assert_eq!(
            install_and_start_docker_linux(release).err(),
            Some("Unsupported Linux distribution".to_string())
        );
    }
}

#[test]
fn test_create_k8s_job() {
    let job_name = "test-job";
    let image_uri = "alelat/wondera:latest";
    let plan = trace_store::k8_manager::create_k8s_job(job_name, image_uri);
    assert_eq!(plan.job_name, job_name);
    assert_eq!(plan.container_name, job_name);
    assert_eq!(plan.image, image_uri);
    assert_eq!(plan.namespace, "default");
    assert_eq!(plan.restart_policy, "Never");
}

#[test]
fn docker_that_answers_needs_nothing() {
    assert_eq!(ensure_docker_running(true, "linux"), Ok(None));
    assert_eq!(ensure_docker_running(true, "plan9"), Ok(None));
    assert_eq!(ensure_docker_running(false, "linux"), Ok(Some(Platform::Linux)));
    assert_eq!(ensure_docker_running(false, "macos"), Ok(Some(Platform::MacOs)));
    assert_eq!(
        ensure_docker_running(false, "plan9"),
        Err("Unsupported operating system: plan9".to_string())
    );
}

#[test]
fn the_complaint_about_a_missing_file() {
    assert_eq!(
        missing_file("pyproject.toml"),
        "Error: Required file 'pyproject.toml' not found in the current directory"
    );
}
