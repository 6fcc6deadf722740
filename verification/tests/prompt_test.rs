use croque::command::SegmentArgs;
use croque::config::Config;
use croque::info::git::{GitInfo, Head, WorkspaceStatus};
use croque::segment::os::Distribution;
use croque::segment::{render_prompt, Context, EnvInfo};
use croque::shell::Shell;

const SHELLS: &[Shell] = &[Shell::Bash, Shell::Fish, Shell::Zsh];

struct PromptInput {
    exit_status: i32,
    duration_ns: u64,
    jobs: i32,
    width: usize,
    git_info: Option<GitInfo>,
}

impl PromptInput {
    fn new() -> Self {
        Self {
            exit_status: 0,
            duration_ns: 0,
            jobs: 0,
            width: 120,
            git_info: None,
        }
    }
}

fn clean_workspace() -> WorkspaceStatus {
    WorkspaceStatus {
        unstaged_new: 0,
        unstaged_deleted: 0,
        unstaged_changed: 0,
        unstaged_renamed: 0,
        staged_new: 0,
        staged_deleted: 0,
        staged_changed: 0,
        staged_renamed: 0,
        conflicted: 0,
    }
}

fn fresh_repo(user: Option<&str>) -> GitInfo {
    GitInfo {
        workdir: Some("/home/ayaka/repo".to_string()),
        head: Head::Branch("main".to_string()),
        workspace: clean_workspace(),
        upstream: None,
        remotes: Vec::new(),
        user: user.map(|u| u.to_string()),
    }
}

fn run_prompt(shell: Shell, input: &PromptInput) -> String {
    let args = SegmentArgs {
        right: false,
        exit_status: input.exit_status,
        duration_ns: input.duration_ns,
        jobs: input.jobs,
        width: input.width,
        encoded_git_info: None,
        encoded_gh_info: None,
        encoded_glab_info: None,
        shell,
    };
    let env = EnvInfo {
        cwd: Some("/home/ayaka/repo".to_string()),
        cwd_is_dir: true,
        home: Some("/home/ayaka".to_string()),
        username: Some("user".to_string()),
        hostname: Some("host".to_string()),
        time_text: "2024/01/01 12:34:56".to_string(),
        is_root: false,
        distribution: Distribution::Unknown,
    };
    let git_info = match &input.git_info {
        Some(info) => Some(GitInfo {
            workdir: info.workdir.clone(),
            head: match &info.head {
                Head::Branch(b) => Head::Branch(b.clone()),
                Head::Tag(t) => Head::Tag(t.clone()),
                Head::Commit(c) => Head::Commit(c.clone()),
            },
            workspace: info.workspace,
            upstream: info.upstream,
            remotes: Vec::new(),
            user: info.user.clone(),
        }),
        None => None,
    };
    let ctx = Context::new(Config::default(), args, git_info, None, None, None, env);
    let output = render_prompt(&ctx);
    assert_ne!(output, "");
    output
}

const DURATION_ICON: &str = " \u{fa1a}";

fn assert_duration_segment_exists(output: &str, expected_duration_text: &str) {
    assert!(
        output.contains(&format!("{DURATION_ICON}{expected_duration_text}")),
        "{output}"
    );
}

fn assert_duration_segment_not_exists(output: &str) {
    assert!(!output.contains(DURATION_ICON), "{output}");
}

#[test]
fn zero() {
    for shell in SHELLS {
        let mut input = PromptInput::new();
        input.duration_ns = 0;
        let output = run_prompt(*shell, &input);

        assert_duration_segment_not_exists(&output);
    }
}

#[test]
fn non_zero() {
    for shell in SHELLS {
        for (duration_ns, expected_text) in [
            (100u64, "0\u{3bc}s"),
            (1_000, "1\u{3bc}s"),
            (10_000, "10\u{3bc}s"),
            (100_000, "100\u{3bc}s"),
            (1_234_000, "1.23ms"),
            (12_345_000, "12.3ms"),
            (1_500_000_000, "1.50s"),
            (65_000_000_000, "1m 5s"),
            (3_723_000_000_000, "1h 2m 3s"),
        ] {
            let mut input = PromptInput::new();
            input.duration_ns = duration_ns;
            let output = run_prompt(*shell, &input);

            assert_duration_segment_exists(&output, expected_text);
        }
    }
}

const USER_ICON: &str = " \u{f2c0} ";

fn assert_user_segment_exists(output: &str, username: &str) {
    assert!(output.contains(&format!("{USER_ICON}{username}")), "{output}");
}

fn assert_user_segment_not_exists(output: &str) {
    assert!(!output.contains(USER_ICON), "{output}");
}

#[test]
fn no_user() {
    for shell in SHELLS {
        let mut input = PromptInput::new();
        input.git_info = Some(fresh_repo(None));
        let output = run_prompt(*shell, &input);

        assert_user_segment_not_exists(&output);
    }
}

#[test]
fn prepare_no_user() {
    let data_git = croque::info::codec::encode_git_info(&fresh_repo(None));

    for shell in SHELLS {
        let decoded = croque::info::codec::decode_git_info(&data_git);
        assert!(decoded.is_some());
        let mut input = PromptInput::new();
        input.git_info = decoded;
        let output = run_prompt(*shell, &input);

        assert_user_segment_not_exists(&output);
    }
}

#[test]
fn prepare_user_round_trip() {
    let data_git = croque::info::codec::encode_git_info(&fresh_repo(Some("John Doe")));

    for shell in SHELLS {
        let decoded = croque::info::codec::decode_git_info(&data_git);
        assert!(decoded.is_some());
        let mut input = PromptInput::new();
        input.git_info = decoded;
        let output = run_prompt(*shell, &input);

        assert_user_segment_exists(&output, "John Doe");
    }
}

#[test]
fn prepare_empty() {
    for shell in SHELLS {
        let decoded = croque::info::codec::decode_git_info("");
        assert!(decoded.is_none());
        let mut input = PromptInput::new();
        input.git_info = decoded;
        let output = run_prompt(*shell, &input);

        assert_user_segment_not_exists(&output);
    }
}

const ICON_SUCCESS: &str = "\u{2713}";
const ICON_ERROR: &str = "\u{f06a}";
const ICON_JOBS: &str = "\u{f013}";

fn assert_contains_success_status(output: &str) {
    assert!(output.contains(&format!(" {ICON_SUCCESS} ")), "{output}");
}

fn assert_not_contains_success_status(output: &str) {
    assert!(!output.contains(&format!(" {ICON_SUCCESS} ")), "{output}");
}

fn assert_contains_error_status(output: &str, exit_status: i32) {
    assert!(
        output.contains(&format!(" {ICON_ERROR} {exit_status} ")),
        "{output}"
    );
}

fn assert_not_contains_error_status(output: &str) {
    assert!(!output.contains(&format!(" {ICON_ERROR} ")), "{output}");
}

fn assert_contains_jobs_status(output: &str) {
    assert!(output.contains(&format!(" {ICON_JOBS} ")), "{output}");
}

fn assert_not_contains_jobs_status(output: &str) {
    assert!(!output.contains(&format!(" {ICON_JOBS} ")), "{output}");
}

#[test]
fn status_success() {
    for shell in SHELLS {
        let mut input = PromptInput::new();
        input.exit_status = 0;
        let output = run_prompt(*shell, &input);

        assert_contains_success_status(&output);
        assert_not_contains_error_status(&output);
    }
}

#[test]
fn status_fail() {
    for shell in SHELLS {
        for exit_status in [1, 127, 130] {
            let mut input = PromptInput::new();
            input.exit_status = exit_status;
            let output = run_prompt(*shell, &input);

            assert_contains_error_status(&output, exit_status);
            assert_not_contains_success_status(&output);
        }
    }
}

#[test]
fn jobs_none() {
    for shell in SHELLS {
        let mut input = PromptInput::new();
        input.jobs = 0;
        let output = run_prompt(*shell, &input);

        assert_not_contains_jobs_status(&output);
    }
}

#[test]
fn jobs_exists() {
    for shell in SHELLS {
        for jobs in [1, 2, 3] {
            let mut input = PromptInput::new();
            input.jobs = jobs;
            let output = run_prompt(*shell, &input);

            assert_contains_jobs_status(&output);
        }
    }
}
