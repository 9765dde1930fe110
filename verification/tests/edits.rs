use linux_setup::edits::{allow_wheel_text, uncomment_locale_text, Edit, WHEEL_RULE};

fn strings(items: &[&str]) -> Vec<String> {
    items.iter().map(|s| s.to_string()).collect()
}

#[test]
fn uncomments_only_the_wanted_locales() {
    let gen = "# comment line\n#en_US.UTF-8 UTF-8\n#de_DE.UTF-8 UTF-8\n#ru_RU.UTF-8 UTF-8\n";
    let out = uncomment_locale_text(gen, &strings(&["en_US.UTF-8", "ru_RU"]));
    assert_eq!(out, "# comment line\nen_US.UTF-8 UTF-8\n#de_DE.UTF-8 UTF-8\nru_RU.UTF-8 UTF-8");
}

#[test]
fn uncommenting_removes_every_hash_of_the_line() {
    let out = uncomment_locale_text("#en_US.UTF-8 UTF-8 # note", &strings(&["en_US"]));
    assert_eq!(out, "en_US.UTF-8 UTF-8  note");
}

#[test]
fn uncommenting_twice_is_uncommenting_once() {
    let names = strings(&["en_US.UTF-8"]);
    let gen = "#en_GB.UTF-8 UTF-8\n#en_US.UTF-8 UTF-8\n";
    let once = uncomment_locale_text(gen, &names);
    let twice = uncomment_locale_text(&once, &names);
    assert_eq!(once, twice);
}

#[test]
fn no_locales_leaves_lines_as_they_are() {
    assert_eq!(uncomment_locale_text("#a\n#b\n", &Vec::new()), "#a\n#b");
}

#[test]
fn sudoers_gets_the_wheel_rule_once_at_the_end() {
    let text = format!("root ALL=(ALL:ALL) ALL\n{}\n@includedir /etc/sudoers.d\n", WHEEL_RULE);
    let out = allow_wheel_text(&text);
    assert_eq!(
        out,
        format!("root ALL=(ALL:ALL) ALL\n@includedir /etc/sudoers.d\n{}", WHEEL_RULE)
    );
    assert_eq!(out.lines().filter(|l| *l == WHEEL_RULE).count(), 1);
}

#[test]
fn sudoers_edit_is_idempotent() {
    let once = allow_wheel_text("root ALL=(ALL:ALL) ALL\n");
    assert_eq!(allow_wheel_text(&once), once);
}

#[test]
fn empty_sudoers_gets_only_the_rule() {
    assert_eq!(allow_wheel_text(""), WHEEL_RULE);
}

#[test]
fn edit_apply_dispatches() {
    assert_eq!(Edit::AllowWheel.apply("x"), format!("x\n{}", WHEEL_RULE));
    assert_eq!(Edit::UncommentLocales(strings(&["x"])).apply("#x\n#y"), "x\n#y");
}
