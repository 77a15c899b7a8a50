use zundux_tts::launch::{docker_launch_command, is_docker_command, local_launch_command, LaunchError};

#[test]
fn rejects_shell_metacharacters_in_docker_cmd() {
    let result = docker_launch_command("docker run evil;rm -rf /");
    assert!(result.is_err());
    assert!(result.err().unwrap().message().contains("metacharacter"));
}

#[test]
fn rejects_shell_metacharacters_in_local_cmd() {
    let result = local_launch_command("voicevox && rm -rf /");
    assert!(result.is_err());
}

#[test]
fn rejects_local_cmd_with_arguments() {
    let result = local_launch_command("voicevox --host 0.0.0.0");
    assert!(result.is_err());
    assert!(result.err().unwrap().message().contains("no arguments allowed"));
}

#[test]
fn docker_flags_go_before_the_image() {
    let cmd = docker_launch_command(
        "docker run --rm -p 50021:50021 voicevox/voicevox_engine:nvidia-latest",
    )
    .ok()
    .unwrap();
    assert_eq!(cmd.program, "docker");
    assert_eq!(
        cmd.args,
        vec![
            "run",
            "--rm",
            "-p",
            "50021:50021",
            "--name",
            "zundux-voicevox",
            "-d",
            "voicevox/voicevox_engine:nvidia-latest"
        ]
    );
}

#[test]
fn docker_option_with_equals_takes_no_value() {
    let cmd = docker_launch_command("docker run --publish=50021:50021 img arg").ok().unwrap();
    assert_eq!(
        cmd.args,
        vec!["run", "--publish=50021:50021", "--name", "zundux-voicevox", "-d", "img", "arg"]
    );
}

#[test]
fn docker_option_without_value_is_refused() {
    let r = docker_launch_command("docker run -p");
    assert!(matches!(r, Err(LaunchError::DockerMissingOptionValue)));
}

#[test]
fn unterminated_quote_is_refused() {
    let r = docker_launch_command("docker run \"img");
    let e = r.err().unwrap();
    assert_eq!(e.message(), "Failed to parse docker command: missing closing quote");
    let l = local_launch_command("'voicevox").err().unwrap();
    assert_eq!(l.message(), "Failed to parse voicevox command: missing closing quote");
}

#[test]
fn empty_commands_are_refused() {
    assert_eq!(docker_launch_command("   ").err().unwrap().message(), "Empty docker command");
    assert_eq!(local_launch_command("").err().unwrap().message(), "Empty voicevox command");
}

#[test]
fn first_metacharacter_word_is_named() {
    let e = docker_launch_command("docker run a$b c|d").err().unwrap();
    assert_eq!(
        e.message(),
        "Shell metacharacter detected in docker command argument: a$b"
    );
    let l = local_launch_command("run>x").err().unwrap();
    assert_eq!(l.message(), "Shell metacharacter detected in voicevox command: run>x");
}

#[test]
fn local_command_is_the_executable_alone() {
    let cmd = local_launch_command("  /opt/voicevox/run  ").ok().unwrap();
    assert_eq!(cmd.program, "/opt/voicevox/run");
    assert!(cmd.args.is_empty());
    let quoted = local_launch_command("'/opt/VOICEVOX Engine/run'").ok().unwrap();
    assert_eq!(quoted.program, "/opt/VOICEVOX Engine/run");
}

#[test]
fn docker_commands_are_recognised() {
    assert!(is_docker_command("  docker run img"));
    assert!(is_docker_command("docker start x"));
    assert!(!is_docker_command("dockerd"));
    assert!(!is_docker_command("/usr/bin/voicevox"));
}
