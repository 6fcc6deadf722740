use croque::command::SegmentArgs;
use croque::config::Config;
use croque::info::git::{GitInfo, Head, WorkspaceStatus};
use croque::segment::git_status::GitStatusSegmentBuilder;
use croque::segment::os::{detect_distribution, Distribution};
use croque::segment::status::StatusSegmentBuilder;
use croque::segment::user::UserSegmentBuilder;
use croque::segment::{Context, EnvInfo};
use croque::shell::Shell;
use croque::style::{Color, NamedColor};

fn context(exit_status: i32, git_info: Option<GitInfo>) -> Context {
    let args = SegmentArgs {
        right: false,
        exit_status,
        duration_ns: 0,
        jobs: 0,
        width: 100,
        encoded_git_info: None,
        encoded_gh_info: None,
        encoded_glab_info: None,
        shell: Shell::Zsh,
    };
    let env = EnvInfo {
        cwd: Some("/home/ayaka".to_string()),
        cwd_is_dir: true,
        home: Some("/home/ayaka".to_string()),
        username: Some("user".to_string()),
        hostname: Some("host".to_string()),
        time_text: "12:00:00".to_string(),
        is_root: false,
        distribution: Distribution::Unknown,
    };
    Context::new(Config::default(), args, git_info, None, None, None, env)
}

fn workspace_with_one_new_file() -> WorkspaceStatus {
    WorkspaceStatus {
        unstaged_new: 1,
        unstaged_deleted: 0,
        unstaged_changed: 0,
        unstaged_renamed: 0,
        staged_new: 0,
        staged_deleted: 0,
        staged_changed: 0,
        staged_renamed: 0,
        conflicted: 0,
    }
}

#[test]
fn failed_status_shows_the_code_under_default_config() {
    let ctx = context(1, None);
    let seg = StatusSegmentBuilder::new().build(&ctx).unwrap();
    assert_eq!(seg.content, " \u{f06a} 1 ");
    // the failure style
    assert_eq!(seg.style.background, Color::Named(NamedColor::Red));
}

#[test]
fn successful_status_shows_the_success_icon_alone() {
    let ctx = context(0, None);
    let seg = StatusSegmentBuilder::new().build(&ctx).unwrap();
    assert_eq!(seg.content, " \u{2713} ");
    assert_eq!(seg.style.background, Color::Named(NamedColor::White));
}

#[test]
fn one_new_unstaged_file_shows_only_the_added_icon() {
    let info = GitInfo {
        workdir: Some("/home/ayaka".to_string()),
        head: Head::Branch("main".to_string()),
        workspace: workspace_with_one_new_file(),
        upstream: None,
        remotes: Vec::new(),
        user: None,
    };
    let ctx = context(0, Some(info));
    let seg = GitStatusSegmentBuilder::new().build(&ctx).unwrap();
    // the working-tree fragment shows the added icon and none of the
    // others
    assert!(seg.content.contains(" +"), "{}", seg.content);
    assert!(!seg.content.contains('-'), "{}", seg.content);
    assert!(!seg.content.contains('\u{2026}'), "{}", seg.content);
    assert!(!seg.content.contains('\u{2192}'), "{}", seg.content);
    assert!(!seg.content.contains('\u{f47f}'), "{}", seg.content);
    // an unstaged new file counts as an unstaged change: yellow
    assert_eq!(seg.style.background, Color::Named(NamedColor::Yellow));
}

#[test]
fn working_tree_fragments_follow_the_fixed_order() {
    let icons = croque::config::git_status::GitStatusIcons::default();
    let everything = WorkspaceStatus {
        unstaged_new: 1,
        unstaged_deleted: 1,
        unstaged_changed: 1,
        unstaged_renamed: 1,
        staged_new: 0,
        staged_deleted: 0,
        staged_changed: 0,
        staged_renamed: 0,
        conflicted: 1,
    };
    let text = GitStatusSegmentBuilder::build_working_tree_status(&everything, &icons);
    assert_eq!(text, " +-\u{2026}\u{2192}\u{f47f}");
}

#[test]
fn hidden_default_branch_shows_only_the_icon() {
    let icons = croque::config::git_status::GitStatusIcons::default();
    let text =
        GitStatusSegmentBuilder::build_head_status(&Head::Branch("main".to_string()), &icons, false, 7);
    assert_eq!(text, "\u{e725}");
    let text =
        GitStatusSegmentBuilder::build_head_status(&Head::Branch("main".to_string()), &icons, true, 7);
    assert_eq!(text, "\u{e725} main");
    let text = GitStatusSegmentBuilder::build_head_status(
        &Head::Commit("0123456789abcdef".to_string()),
        &icons,
        true,
        7,
    );
    assert_eq!(text, "\u{f417} 0123456");
}

#[test]
fn unknown_user_and_host_become_question_marks() {
    let mut ctx = context(0, None);
    ctx.env.username = None;
    let seg = UserSegmentBuilder::default().build(&ctx).unwrap();
    assert_eq!(seg.content, " ?@host ");
    ctx.env.username = Some("user".to_string());
    ctx.env.hostname = None;
    let seg = UserSegmentBuilder::default().build(&ctx).unwrap();
    assert_eq!(seg.content, " user@? ");
}

#[test]
fn release_files_identify_distributions() {
    assert_eq!(
        detect_distribution("NAME=\"Ubuntu\"\nID=ubuntu\n"),
        Some(Distribution::Ubuntu)
    );
    assert_eq!(
        detect_distribution("ID=\"arch\"\n"),
        Some(Distribution::Arch)
    );
    // an unknown ID falls back to ID_LIKE further down
    assert_eq!(
        detect_distribution("ID=linuxmint\nID_LIKE=ubuntu\n"),
        Some(Distribution::Ubuntu)
    );
    // an unknown ID_LIKE ends the search
    assert_eq!(detect_distribution("ID=weird\nID_LIKE=weirder\n"), None);
    assert_eq!(detect_distribution(""), None);
}
