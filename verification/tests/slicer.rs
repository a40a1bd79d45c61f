use std::path::PathBuf;

use bambu_printers::slicer::{
    command_line, find_orca_slicer, program_path, OrcaSlicer, Platform, SliceAction, SliceError,
    SliceEvent, SliceState,
};

fn text(path: PathBuf) -> String {
    path.to_str().unwrap().to_string()
}

fn slicer() -> OrcaSlicer {
    OrcaSlicer::new(PathBuf::from("cfg"))
}

fn expected_args(uid: &str) -> Vec<String> {
    vec![
        "--load-settings".to_string(),
        format!("{};{}", text(PathBuf::from("cfg").join("process.json")), text(PathBuf::from("cfg").join("machine.json"))),
        "--load-filaments".to_string(),
        text(PathBuf::from("cfg").join("filament.json")),
        "--slice".to_string(),
        "0".to_string(),
        "--orient".to_string(),
        "1".to_string(),
        "--export-3mf".to_string(),
        text(PathBuf::from("tmp").join(format!("{}.3mf", uid))),
        "in.stl".to_string(),
    ]
}

fn started() -> SliceState {
    slicer().start(PathBuf::from("in.stl"), PathBuf::from("tmp"), Platform::Linux).0
}

fn located() -> SliceState {
    slicer().step_with(started(), SliceEvent::ConfigChecked(true), "abc").0
}

fn running() -> SliceState {
    slicer().step_with(located(), SliceEvent::SlicerLocated(true), "").0
}

fn checking_output() -> SliceState {
    let exited = SliceEvent::Exited { success: true, stdout: Vec::new(), stderr: Vec::new() };
    slicer().step_with(running(), exited, "").0
}

fn failed(error: SliceError) -> (SliceState, SliceAction) {
    (SliceState::Finished, SliceAction::Finish(Err(error)))
}

#[test]
fn slicer_keeps_its_configuration_path() {
    assert_eq!(slicer().config(), &PathBuf::from("cfg"));
    assert_eq!(OrcaSlicer::new(PathBuf::new()).config(), &PathBuf::new());
    assert_eq!(slicer().clone(), slicer());
}

#[test]
fn slicer_is_found_where_it_is_installed() {
    assert_eq!(
        find_orca_slicer(Platform::MacOs, true),
        Ok("/Applications/OrcaSlicer.app/Contents/MacOS/OrcaSlicer".to_string())
    );
    assert_eq!(
        find_orca_slicer(Platform::Windows, true),
        Ok("C:\\Program Files\\OrcaSlicer\\orca-slicer.exe".to_string())
    );
    assert_eq!(find_orca_slicer(Platform::Linux, true), Ok("/usr/bin/orca-slicer".to_string()));
    assert_eq!(program_path(Platform::Linux), "/usr/bin/orca-slicer");
}

#[test]
fn slicer_that_is_not_installed_is_not_found() {
    for platform in [Platform::MacOs, Platform::Windows, Platform::Linux] {
        assert_eq!(find_orca_slicer(platform, false), Err(SliceError::SlicerNotFound));
    }
}

#[test]
fn command_line_has_eleven_arguments() {
    let s = |t: &str| Some(t.to_string());
    let args = command_line(&s("p.json"), &s("m.json"), &s("f.json"), &s("out.3mf"), &s("model.stl"));
    assert_eq!(
        args,
        Ok(vec![
            "--load-settings".to_string(),
            "p.json;m.json".to_string(),
            "--load-filaments".to_string(),
            "f.json".to_string(),
            "--slice".to_string(),
            "0".to_string(),
            "--orient".to_string(),
            "1".to_string(),
            "--export-3mf".to_string(),
            "out.3mf".to_string(),
            "model.stl".to_string(),
        ])
    );
}

#[test]
fn first_path_without_text_decides_the_error() {
    let s = |t: &str| Some(t.to_string());
    assert_eq!(command_line(&None, &s("m"), &s("f"), &s("o"), &s("i")), Err(SliceError::InvalidConfigPath));
    assert_eq!(command_line(&s("p"), &None, &s("f"), &s("o"), &s("i")), Err(SliceError::InvalidConfigPath));
    assert_eq!(command_line(&s("p"), &s("m"), &None, &None, &None), Err(SliceError::InvalidConfigPath));
    assert_eq!(command_line(&s("p"), &s("m"), &s("f"), &None, &None), Err(SliceError::InvalidOutputPath));
    assert_eq!(command_line(&s("p"), &s("m"), &s("f"), &s("o"), &None), Err(SliceError::InvalidInputPath));
}

#[test]
fn job_starts_by_checking_the_configuration() {
    let (state, action) = slicer().start(PathBuf::from("in.stl"), PathBuf::from("tmp"), Platform::Linux);
    assert_eq!(action, SliceAction::CheckConfig);
    assert_eq!(
        state,
        SliceState::CheckingConfig { file: PathBuf::from("in.stl"), temp_dir: PathBuf::from("tmp"), platform: Platform::Linux }
    );
}

#[test]
fn configuration_that_is_no_directory_ends_the_job() {
    assert_eq!(
        slicer().step_with(started(), SliceEvent::ConfigChecked(false), "abc"),
        failed(SliceError::ConfigNotDirectory)
    );
    assert_eq!(slicer().step(started(), SliceEvent::ConfigChecked(false)), failed(SliceError::ConfigNotDirectory));
}

#[test]
fn job_runs_to_its_output() {
    let slicer = slicer();
    let (state, action) = slicer.step_with(started(), SliceEvent::ConfigChecked(true), "abc");
    let output = text(PathBuf::from("tmp").join("abc.3mf"));
    assert_eq!(action, SliceAction::Locate("/usr/bin/orca-slicer".to_string()));
    assert_eq!(
        state,
        SliceState::Locating { platform: Platform::Linux, output: output.clone(), args: expected_args("abc") }
    );
    let (state, action) = slicer.step_with(state, SliceEvent::SlicerLocated(true), "");
    assert_eq!(
        action,
        SliceAction::Run { program: "/usr/bin/orca-slicer".to_string(), args: expected_args("abc") }
    );
    assert_eq!(state, SliceState::Running { output: output.clone() });
    let exited = SliceEvent::Exited { success: true, stdout: b"done".to_vec(), stderr: vec![0xff] };
    let (state, action) = slicer.step_with(state, exited, "");
    assert_eq!(action, SliceAction::CheckOutput(output.clone()));
    assert_eq!(state, SliceState::CheckingOutput { output: output.clone() });
    let (state, action) = slicer.step_with(state, SliceEvent::OutputChecked(true), "");
    assert_eq!(action, SliceAction::Finish(Ok(output)));
    assert_eq!(state, SliceState::Finished);
}

#[test]
fn program_follows_the_platform() {
    for (platform, program) in [
        (Platform::MacOs, "/Applications/OrcaSlicer.app/Contents/MacOS/OrcaSlicer"),
        (Platform::Windows, "C:\\Program Files\\OrcaSlicer\\orca-slicer.exe"),
        (Platform::Linux, "/usr/bin/orca-slicer"),
    ] {
        let slicer = slicer();
        let (state, _) = slicer.start(PathBuf::from("in.stl"), PathBuf::from("tmp"), platform);
        let (state, action) = slicer.step_with(state, SliceEvent::ConfigChecked(true), "u");
        assert_eq!(action, SliceAction::Locate(program.to_string()));
        let (_, action) = slicer.step_with(state, SliceEvent::SlicerLocated(true), "");
        assert!(matches!(action, SliceAction::Run { program: found, .. } if found == program));
    }
}

#[test]
fn missing_slicer_ends_the_job() {
    assert_eq!(slicer().step_with(located(), SliceEvent::SlicerLocated(false), ""), failed(SliceError::SlicerNotFound));
}

#[test]
fn slicer_that_cannot_be_run_ends_the_job() {
    assert_eq!(slicer().step_with(running(), SliceEvent::NotStarted, ""), failed(SliceError::CommandFailed));
}

#[test]
fn failed_slicer_is_reported_with_what_it_printed() {
    let exited = SliceEvent::Exited { success: false, stdout: b"out \xc3\xa9".to_vec(), stderr: b"err".to_vec() };
    assert_eq!(
        slicer().step_with(running(), exited, ""),
        failed(SliceError::SlicerFailed { stdout: "out \u{e9}".to_string(), stderr: "err".to_string() })
    );
    let silent = SliceEvent::Exited { success: false, stdout: Vec::new(), stderr: Vec::new() };
    assert_eq!(
        slicer().step_with(running(), silent, ""),
        failed(SliceError::SlicerFailed { stdout: String::new(), stderr: String::new() })
    );
}

#[test]
fn failed_slicer_with_ill_formed_output_is_reported_as_such() {
    let exited = SliceEvent::Exited { success: false, stdout: vec![0xff], stderr: b"err".to_vec() };
    assert_eq!(slicer().step_with(running(), exited, ""), failed(SliceError::BadDiagnostics));
    let exited = SliceEvent::Exited { success: false, stdout: b"out".to_vec(), stderr: vec![0xc3] };
    assert_eq!(slicer().step_with(running(), exited, ""), failed(SliceError::BadDiagnostics));
}

#[test]
fn missing_output_ends_the_job() {
    assert_eq!(slicer().step_with(checking_output(), SliceEvent::OutputChecked(false), ""), failed(SliceError::NoOutput));
}

#[test]
fn answers_out_of_turn_end_the_job() {
    let exited = || SliceEvent::Exited { success: true, stdout: Vec::new(), stderr: Vec::new() };
    assert_eq!(slicer().step_with(started(), SliceEvent::SlicerLocated(true), ""), failed(SliceError::Unexpected));
    assert_eq!(slicer().step_with(started(), exited(), ""), failed(SliceError::Unexpected));
    assert_eq!(slicer().step_with(located(), SliceEvent::ConfigChecked(true), ""), failed(SliceError::Unexpected));
    assert_eq!(slicer().step_with(located(), SliceEvent::NotStarted, ""), failed(SliceError::Unexpected));
    assert_eq!(slicer().step_with(running(), SliceEvent::OutputChecked(true), ""), failed(SliceError::Unexpected));
    assert_eq!(slicer().step_with(checking_output(), exited(), ""), failed(SliceError::Unexpected));
    for event in [SliceEvent::ConfigChecked(true), SliceEvent::SlicerLocated(true), SliceEvent::NotStarted, SliceEvent::OutputChecked(true), exited()] {
        assert_eq!(slicer().step_with(SliceState::Finished, event, ""), failed(SliceError::Unexpected));
    }
}

#[test]
fn job_draws_a_random_identifier() {
    let (state, action) = slicer().step(started(), SliceEvent::ConfigChecked(true));
    assert_eq!(action, SliceAction::Locate("/usr/bin/orca-slicer".to_string()));
    let (output, args) = match state {
        SliceState::Locating { output, args, .. } => (output, args),
        other => panic!("not located: {:?}", other),
    };
    let prefix = text(PathBuf::from("tmp").join("x"));
    let prefix = &prefix[..prefix.len() - 1];
    assert!(output.starts_with(prefix));
    assert!(output.ends_with(".3mf"));
    let uid = &output[prefix.len()..output.len() - 4];
    assert_eq!(uid.len(), 36);
    for (i, c) in uid.chars().enumerate() {
        if i == 8 || i == 13 || i == 18 || i == 23 {
            assert_eq!(c, '-');
        } else {
            assert!(c.is_ascii_digit() || ('a'..='f').contains(&c));
        }
    }
    assert_eq!(uid.chars().nth(14), Some('4'));
    assert!(matches!(uid.chars().nth(19), Some('8') | Some('9') | Some('a') | Some('b')));
    assert_eq!(args, expected_args(uid));
    let (again, _) = slicer().step(started(), SliceEvent::ConfigChecked(true));
    assert!(matches!(again, SliceState::Locating { output: other, .. } if other != output));
}

#[test]
fn later_steps_draw_nothing() {
    let (state, action) = slicer().step(located(), SliceEvent::SlicerLocated(true));
    assert_eq!(action, SliceAction::Run { program: "/usr/bin/orca-slicer".to_string(), args: expected_args("abc") });
    let (state, _) = slicer().step(state, SliceEvent::Exited { success: true, stdout: Vec::new(), stderr: Vec::new() });
    let (state, action) = slicer().step(state, SliceEvent::OutputChecked(true));
    assert_eq!(action, SliceAction::Finish(Ok(text(PathBuf::from("tmp").join("abc.3mf")))));
    assert_eq!(state, SliceState::Finished);
}
