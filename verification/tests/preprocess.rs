use rhai_runner::preprocess::strip_shebang;

#[test]
fn no_shebang_unchanged() {
    assert_eq!(strip_shebang("let x = 1;\nx"), "let x = 1;\nx");
    assert_eq!(strip_shebang(""), "");
    assert_eq!(strip_shebang("#"), "#");
    assert_eq!(strip_shebang("!#\nrest"), "!#\nrest");
    assert_eq!(strip_shebang(" #!/bin/sh\nrest"), " #!/bin/sh\nrest");
}

#[test]
fn shebang_with_newline_stripped() {
    assert_eq!(strip_shebang("#!/usr/bin/env rhai\nprint(1);"), "\nprint(1);");
    assert_eq!(strip_shebang("#!\nabc"), "\nabc");
    assert_eq!(strip_shebang("#!x\n"), "\n");
    assert_eq!(strip_shebang("#!a\nb\nc"), "\nb\nc");
}

#[test]
fn shebang_without_newline_unchanged() {
    assert_eq!(strip_shebang("#!no-newline"), "#!no-newline");
    assert_eq!(strip_shebang("#!"), "#!");
    assert_eq!(strip_shebang("#!/usr/bin/env rhai"), "#!/usr/bin/env rhai");
}
