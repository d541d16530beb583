use pseudobash::global_struct::settings::{Mode, Settings};

#[test]
fn prompt_shows_the_modes_that_are_on() {
    let mut settings = Settings::default();
    assert_eq!(settings.mode, Mode::default());
    assert!(!settings.is_interactive());
    assert_eq!(
        settings.get_invitation_input(),
        "\x1b[0;1;37m>>>\x1b[0m".as_bytes().to_vec()
    );

    settings.set_interactive_mode(true);
    assert!(settings.is_interactive());
    assert_eq!(
        settings.get_invitation_input(),
        "\x1b[0;1;31m(i) \x1b[0;1;37m>>>\x1b[0m".as_bytes().to_vec()
    );

    settings.set_xargs_mode(true);
    assert_eq!(
        settings.get_invitation_input(),
        "\x1b[0;1;31m(ix) \x1b[0;1;37m>>>\x1b[0m".as_bytes().to_vec()
    );

    settings.set_interactive_mode(false);
    assert_eq!(
        settings.get_invitation_input(),
        "\x1b[0;1;31m(x) \x1b[0;1;37m>>>\x1b[0m".as_bytes().to_vec()
    );
}

#[test]
fn prompt_repeats_the_symbol_three_times() {
    let mut settings = Settings::default();
    settings.invitation_input_symbol = "$ ".as_bytes().to_vec();
    assert_eq!(
        settings.get_invitation_input(),
        "\x1b[0;1;37m$ $ $ \x1b[0m".as_bytes().to_vec()
    );
}
