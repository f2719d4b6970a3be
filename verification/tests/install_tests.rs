use wasmer_install::archive::{archive_entries, lines};
use wasmer_install::error::{exit_code, message, ErrorKind};
use wasmer_install::install::{
    plan_copy, plan_directories, plan_install, section_dir, CopyStep, InstallPlan, Section,
};
use wasmer_install::strategy::InstallationStrategy;

fn entries(names: &[&str]) -> Vec<String> {
    names.iter().map(|name| name.to_string()).collect()
}

fn copy(source: &str, destination: &str) -> CopyStep {
    CopyStep { source: source.to_string(), destination: destination.to_string() }
}

fn single(root: &str) -> InstallationStrategy {
    InstallationStrategy::SinglePath { root: root.to_string() }
}

fn split(data_dir: &str, executable_dir: &str) -> InstallationStrategy {
    InstallationStrategy::SplitPaths {
        data_dir: data_dir.to_string(),
        executable_dir: executable_dir.to_string(),
    }
}

const KINDS: [ErrorKind; 9] = [
    ErrorKind::ResolutionAmbiguity,
    ErrorKind::Network,
    ErrorKind::UnexpectedStatus,
    ErrorKind::Parse,
    ErrorKind::NoReleaseFound,
    ErrorKind::AmbiguousAsset,
    ErrorKind::RedirectTargetMissing,
    ErrorKind::Archive,
    ErrorKind::Io,
];

#[test]
fn lines_split_at_line_feeds() {
    assert_eq!(lines("bin/\nbin/wasmer\nLICENSE\n"), entries(&["bin/", "bin/wasmer", "LICENSE"]));
    assert_eq!(lines("a\nb"), entries(&["a", "b"]));
    assert_eq!(lines("a\n\nb\n"), entries(&["a", "", "b"]));
    assert_eq!(lines("\n"), entries(&[""]));
    assert_eq!(lines(""), entries(&[]));
}

#[test]
fn lines_drop_a_carriage_return_before_a_line_feed() {
    assert_eq!(lines("a\r\nb\r\n"), entries(&["a", "b"]));
    assert_eq!(lines("a\r\r\nb"), entries(&["a\r", "b"]));
    assert_eq!(lines("a\rb\n"), entries(&["a\rb"]));
    assert_eq!(lines("a\r"), entries(&["a\r"]));
    assert_eq!(lines("\r\n"), entries(&[""]));
}

#[test]
fn lines_agree_with_std() {
    let texts =
        ["", "\n", "\n\n", "a", "a\n", "a\nb", "a\r\nb\r", "\r", "\r\n\r\n", "é\nü\n", "x\n\r\ny"];
    for text in texts {
        let expected: Vec<String> = text.lines().map(str::to_string).collect();
        assert_eq!(lines(text), expected, "{text:?}");
    }
}

#[test]
fn archive_entries_of_a_listing() {
    let listing = b"bin/\nbin/wasmer\nlib/libwasmer.so\nLICENSE\n".to_vec();
    assert_eq!(
        archive_entries(listing),
        Ok(entries(&["bin/", "bin/wasmer", "lib/libwasmer.so", "LICENSE"]))
    );
    assert_eq!(archive_entries(Vec::new()), Ok(entries(&[])));
    assert_eq!(
        archive_entries("include/é.h\n".as_bytes().to_vec()),
        Ok(entries(&["include/é.h"]))
    );
}

#[test]
fn archive_entries_rejects_invalid_text() {
    assert_eq!(archive_entries(vec![b'b', b'i', b'n', 0xff, b'\n']), Err(ErrorKind::Archive));
    assert_eq!(archive_entries(vec![0xc3]), Err(ErrorKind::Archive));
}

#[test]
fn single_path_keeps_the_section_prefix() {
    let plan = plan_install(
        &entries(&["bin/wasmer", "lib/libwasmer.so", "include/wasmer.h", "LICENSE"]),
        &single("/home/alice/.wasmer"),
    )
    .unwrap();
    assert_eq!(
        plan.copies,
        vec![
            copy("bin/wasmer", "/home/alice/.wasmer/bin/wasmer"),
            copy("lib/libwasmer.so", "/home/alice/.wasmer/lib/libwasmer.so"),
            copy("include/wasmer.h", "/home/alice/.wasmer/include/wasmer.h"),
        ]
    );
    assert_eq!(
        plan.directories,
        entries(&[
            "/home/alice/.wasmer",
            "/home/alice/.wasmer/bin",
            "/home/alice/.wasmer/lib",
            "/home/alice/.wasmer/include",
        ])
    );
}

#[test]
fn split_paths_strip_the_section_prefix() {
    let plan = plan_install(&entries(&["lib/sub/libfoo.so"]), &split("/D", "/E")).unwrap();
    assert_eq!(plan.copies, vec![copy("lib/sub/libfoo.so", "/D/sub/libfoo.so")]);
    assert!(plan.directories.is_empty());
}

#[test]
fn split_paths_send_each_section_to_its_directory() {
    let plan = plan_install(
        &entries(&[
            "bin/wasmer",
            "lib/libwasmer.so",
            "include/wasmer.h",
            "LICENSE",
            "bin/tools/wax",
        ]),
        &split("/home/alice/.local/share", "/home/alice/.local/bin"),
    )
    .unwrap();
    assert_eq!(
        plan,
        InstallPlan {
            directories: Vec::new(),
            copies: vec![
                copy("bin/wasmer", "/home/alice/.local/bin/wasmer"),
                copy("lib/libwasmer.so", "/home/alice/.local/share/libwasmer.so"),
                copy("include/wasmer.h", "/home/alice/.local/share/wasmer.h"),
                copy("bin/tools/wax", "/home/alice/.local/bin/tools/wax"),
            ],
        }
    );
}

#[test]
fn directory_entries_are_not_copied() {
    let plan = plan_install(
        &entries(&["bin/", "bin/wasmer", "lib/", "lib/sub/", "lib/sub/libfoo.so", "include/"]),
        &single("/R"),
    )
    .unwrap();
    assert_eq!(
        plan.copies,
        vec![copy("bin/wasmer", "/R/bin/wasmer"), copy("lib/sub/libfoo.so", "/R/lib/sub/libfoo.so")]
    );
}

#[test]
fn entries_outside_the_sections_are_ignored() {
    let ignored = entries(&[
        "LICENSE",
        "",
        "bin",
        "binary/wasmer",
        "share/bin/wasmer",
        "./bin/wasmer",
        "/bin/wasmer",
        "Bin/wasmer",
        "libs/libwasmer.so",
        "includes/wasmer.h",
    ]);
    assert!(plan_install(&ignored, &single("/R")).unwrap().copies.is_empty());
    assert!(plan_install(&ignored, &split("/D", "/E")).unwrap().copies.is_empty());
}

#[test]
fn no_entries_give_an_empty_plan() {
    assert_eq!(
        plan_install(&Vec::new(), &split("/D", "/E")),
        Ok(InstallPlan { directories: Vec::new(), copies: Vec::new() })
    );
    let plan = plan_install(&Vec::new(), &single("/R")).unwrap();
    assert!(plan.copies.is_empty());
    assert_eq!(plan.directories, entries(&["/R", "/R/bin", "/R/lib", "/R/include"]));
}

#[test]
fn no_strategy_fails_the_installation() {
    assert_eq!(
        plan_install(&entries(&["bin/wasmer"]), &InstallationStrategy::NoStrategy),
        Err(ErrorKind::ResolutionAmbiguity)
    );
    assert_eq!(
        plan_install(&Vec::new(), &InstallationStrategy::NoStrategy),
        Err(ErrorKind::ResolutionAmbiguity)
    );
}

#[test]
fn plan_copy_of_single_entries() {
    assert_eq!(plan_copy(&split("/D", "/E"), "bin/wasmer"), Some(copy("bin/wasmer", "/E/wasmer")));
    assert_eq!(
        plan_copy(&split("/D/", "/E/"), "include/a/b.h"),
        Some(copy("include/a/b.h", "/D/a/b.h"))
    );
    assert_eq!(plan_copy(&single("/R/"), "lib/x"), Some(copy("lib/x", "/R/lib/x")));
    assert_eq!(plan_copy(&single(""), "lib/x"), Some(copy("lib/x", "lib/x")));
    assert_eq!(plan_copy(&single("/R"), "lib/"), None);
    assert_eq!(plan_copy(&single("/R"), "README.md"), None);
    assert_eq!(plan_copy(&InstallationStrategy::NoStrategy, "bin/wasmer"), None);
}

#[test]
fn plan_directories_of_each_strategy() {
    assert_eq!(
        plan_directories(&single("root")),
        entries(&["root", "root/bin", "root/lib", "root/include"])
    );
    assert!(plan_directories(&split("/D", "/E")).is_empty());
    assert!(plan_directories(&InstallationStrategy::NoStrategy).is_empty());
}

#[test]
fn section_directories() {
    assert_eq!(section_dir(Section::Bin), "bin");
    assert_eq!(section_dir(Section::Lib), "lib");
    assert_eq!(section_dir(Section::Include), "include");
}

#[test]
fn planning_twice_gives_the_same_plan() {
    let listed = entries(&["bin/wasmer", "lib/libwasmer.so", "include/wasmer.h", "LICENSE"]);
    let strategy = single("/home/alice/.wasmer");
    assert_eq!(plan_install(&listed, &strategy), plan_install(&listed, &strategy));
}

#[test]
fn exit_codes_are_distinct_and_not_zero() {
    for (i, a) in KINDS.iter().enumerate() {
        assert_ne!(exit_code(*a), 0);
        for b in &KINDS[i + 1..] {
            assert_ne!(exit_code(*a), exit_code(*b));
        }
    }
    assert_eq!(exit_code(ErrorKind::ResolutionAmbiguity), 1);
    assert_eq!(exit_code(ErrorKind::Io), 9);
}

#[test]
fn every_kind_has_a_message() {
    for kind in KINDS {
        assert!(!message(kind).is_empty());
    }
    assert_eq!(message(ErrorKind::ResolutionAmbiguity), "Don't know where to install.");
    assert_eq!(message(ErrorKind::AmbiguousAsset), "Could not get latest release artifact.");
}
