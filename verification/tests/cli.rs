use seele_packages::cli::{parse_invocation, Invocation};
use seele_packages::types::Action;

fn args(v: &[&str]) -> Vec<String> {
    v.iter().map(|s| s.to_string()).collect()
}

#[test]
fn install_of_a_package() {
    assert_eq!(
        parse_invocation(&args(&["install", "bash"])),
        Some(Invocation { action: Action::Install, package: "bash".to_string(), rebuild: false, ignore_deps: false })
    );
}

#[test]
fn flags_anywhere_after_the_action() {
    assert_eq!(
        parse_invocation(&args(&["clean", "--rebuild", "vim", "--ignore-deps"])),
        Some(Invocation { action: Action::Clean, package: "vim".to_string(), rebuild: true, ignore_deps: true })
    );
    assert_eq!(
        parse_invocation(&args(&["rebuild-only", "--ignore-deps", "--ignore-deps", "tcc"])),
        Some(Invocation {
            action: Action::RebuildOnly,
            package: "tcc".to_string(),
            rebuild: false,
            ignore_deps: true
        })
    );
}

#[test]
fn usage_shown() {
    assert_eq!(parse_invocation(&args(&[])), None);
    assert_eq!(parse_invocation(&args(&["deploy", "bash"])), None);
    assert_eq!(parse_invocation(&args(&["install"])), None);
    assert_eq!(parse_invocation(&args(&["install", "--rebuild"])), None);
    assert_eq!(parse_invocation(&args(&["install", "bash", "vim"])), None);
    assert_eq!(parse_invocation(&args(&["bash", "install"])), None);
}
