use pseudobash::global_struct::default_utils::exit::Exit;
use pseudobash::global_struct::default_utils::ive::Ive;
use pseudobash::global_struct::default_utils::mode::Mode;
use pseudobash::global_struct::default_utils::nop::Nop;
use pseudobash::global_struct::default_utils::{parse_input, Builtin, DefaultUtils, Outcome};
use pseudobash::global_struct::environment::Environment;
use pseudobash::global_struct::settings::Settings;
use pseudobash::program::Program;
use pseudobash::program_output::ProgramOutput;

fn bytes(text: &str) -> Vec<u8> {
    text.as_bytes().to_vec()
}

fn words(texts: &[&str]) -> Vec<Vec<u8>> {
    texts.iter().map(|text| bytes(text)).collect()
}

fn success() -> Outcome {
    Outcome::Finished(ProgramOutput::new(0, vec![], vec![]))
}

fn failure(message: &str) -> Outcome {
    Outcome::Finished(ProgramOutput::new(-1, vec![], bytes(message)))
}

fn mode(args: &[&str], settings: &mut Settings) -> Outcome {
    let mut environment = Environment::new();
    Mode::default().execute(words(args), settings, &mut environment)
}

#[test]
fn mode_sets_the_modes_that_its_letters_name() {
    let mut settings = Settings::default();
    assert_eq!(mode(&["mode", "+i"], &mut settings), success());
    assert!(settings.mode.interactive);
    assert!(!settings.mode.xargs);

    assert_eq!(mode(&["mode", "x"], &mut settings), success());
    assert!(settings.mode.interactive);
    assert!(settings.mode.xargs);

    assert_eq!(mode(&["mode", "-ix"], &mut settings), success());
    assert!(!settings.mode.interactive);
    assert!(!settings.mode.xargs);

    assert_eq!(mode(&["mode", "+i-x+"], &mut settings), success());
    assert!(settings.mode.interactive);
    assert!(!settings.mode.xargs);

    assert_eq!(mode(&["mode", "-i+x-"], &mut settings), success());
    assert!(!settings.mode.interactive);
    assert!(settings.mode.xargs);

    assert_eq!(mode(&["mode", "+i-i"], &mut settings), success());
    assert!(!settings.mode.interactive);

    assert_eq!(mode(&["mode", ""], &mut settings), success());
    assert!(!settings.mode.interactive);
    assert!(settings.mode.xargs);
}

#[test]
fn mode_with_a_wrong_number_of_arguments_fails_and_changes_nothing() {
    let mut settings = Settings::default();
    settings.set_xargs_mode(true);
    let before = settings.clone();

    assert_eq!(
        mode(&["mode"], &mut settings),
        failure("Incorrect number of arguments: \"mode\"")
    );
    assert_eq!(settings, before);

    assert_eq!(
        mode(&["mode", "+i", "-x"], &mut settings),
        failure("Incorrect number of arguments: \"mode +i -x\"")
    );
    assert_eq!(settings, before);

    assert_eq!(
        mode(&[], &mut settings),
        failure("Incorrect number of arguments: \"\"")
    );
    assert_eq!(settings, before);
}

#[test]
fn mode_with_a_wrong_letter_fails_and_changes_nothing() {
    let mut settings = Settings::default();
    let before = settings.clone();

    assert_eq!(
        mode(&["mode", "+ixq-z"], &mut settings),
        failure("Wrong argument: 'q'")
    );
    assert_eq!(settings, before);

    assert_eq!(mode(&["mode", " "], &mut settings), failure("Wrong argument: ' '"));
    assert_eq!(settings, before);
}

#[test]
fn ive_switches_the_interactive_mode() {
    let mut settings = Settings::default();
    let mut environment = Environment::new();
    let ive = Ive::default();

    assert_eq!(
        ive.execute(words(&["ive", "on"]), &mut settings, &mut environment),
        success()
    );
    assert!(settings.mode.interactive);
    assert_eq!(
        ive.execute(words(&["ive", "off"]), &mut settings, &mut environment),
        success()
    );
    assert!(!settings.mode.interactive);

    settings.set_interactive_mode(true);
    assert_eq!(
        ive.execute(words(&["ive", "maybe"]), &mut settings, &mut environment),
        failure("Wrong argument: ive maybe")
    );
    assert!(settings.mode.interactive);
    assert_eq!(
        ive.execute(words(&["ive"]), &mut settings, &mut environment),
        failure("Incorrect number of arguments: ive")
    );
    assert_eq!(
        ive.execute(words(&["ive", "on", "off"]), &mut settings, &mut environment),
        failure("Incorrect number of arguments: ive on off")
    );
    assert!(settings.mode.interactive);
}

#[test]
fn nop_succeeds_and_exit_asks_for_the_end() {
    let mut settings = Settings::default();
    let mut environment = Environment::new();
    assert_eq!(
        Nop::default().execute(words(&["nop", "x"]), &mut settings, &mut environment),
        success()
    );
    assert_eq!(
        Exit::default().execute(words(&["exit"]), &mut settings, &mut environment),
        Outcome::Exit(0)
    );
    assert_eq!(settings, Settings::default());
}

#[test]
fn each_builtin_puts_its_pseudo_path_in_the_place_of_a_name() {
    let mut name = bytes("anything");
    Nop::default().name_into_path(&mut name);
    assert_eq!(name, bytes("@nop\0"));
    Exit::default().name_into_path(&mut name);
    assert_eq!(name, bytes("@exit\0"));
    Ive::default().name_into_path(&mut name);
    assert_eq!(name, bytes("@ive\0"));
    Mode::default().name_into_path(&mut name);
    assert_eq!(name, bytes("@mode\0"));
}

#[test]
fn registry_knows_its_builtins_by_name() {
    let utils = DefaultUtils::default();
    assert_eq!(utils.find(&bytes("mode")), Some(Builtin::Mode));
    assert_eq!(utils.find(&bytes("exit")), Some(Builtin::Exit));
    assert_eq!(utils.find(&bytes("nop")), Some(Builtin::Nop));
    assert_eq!(utils.find(&bytes("ive")), Some(Builtin::Ive));
    assert_eq!(utils.find(&bytes("mod")), None);
    assert_eq!(utils.find(&bytes("@nop")), None);
    assert_eq!(utils.find(&bytes("")), None);

    let mut name = bytes("mode\0");
    assert!(utils.name_into_path(&mut name));
    assert_eq!(name, bytes("@mode\0"));

    let mut name = bytes("mode");
    assert!(!utils.name_into_path(&mut name));
    assert_eq!(name, bytes("mode"));

    let mut name = bytes("");
    assert!(!utils.name_into_path(&mut name));
    assert_eq!(name, bytes(""));
}

#[test]
fn words_of_a_builtin_stage_stand_before_each_nul_without_the_marks() {
    assert_eq!(parse_input(bytes("@mode\0+i\0")), words(&["mode", "+i"]));
    assert_eq!(parse_input(bytes("@nop\0")), words(&["nop"]));
    assert_eq!(parse_input(bytes("a@b\0\0c")), words(&["ab", ""]));
    assert_eq!(parse_input(bytes("")), Vec::<Vec<u8>>::new());
}

#[test]
fn registry_runs_the_builtin_that_the_stage_names() {
    let utils = DefaultUtils::default();
    let mut settings = Settings::default();
    let mut environment = Environment::new();

    assert_eq!(
        utils.execute(
            Program::new(bytes("@mode\0+x\0")),
            &mut settings,
            &mut environment
        ),
        success()
    );
    assert!(settings.mode.xargs);
    assert_eq!(
        utils.execute(
            Program::new(bytes("@ive\0on\0")),
            &mut settings,
            &mut environment
        ),
        success()
    );
    assert!(settings.mode.interactive);
    assert_eq!(
        utils.execute(Program::new(bytes("@nop\0")), &mut settings, &mut environment),
        success()
    );
    assert_eq!(
        utils.execute(Program::new(bytes("@exit\0")), &mut settings, &mut environment),
        Outcome::Exit(0)
    );
    assert_eq!(
        utils.execute(Program::new(bytes("@cd\0")), &mut settings, &mut environment),
        failure("Not default method")
    );
    assert_eq!(
        utils.execute(Program::new(bytes("")), &mut settings, &mut environment),
        failure("Not default method")
    );
    assert!(settings.mode.xargs);
    assert!(settings.mode.interactive);
}
