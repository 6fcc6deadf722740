//! The merge-request segment: number, state, pipeline, approval and
//! comment count of the branch's merge request.

use vstd::prelude::*;

use crate::config::glab_merge_request::GlabMergeRequestConfig;
use crate::info::glab::{MergeRequest, MergeRequestState, MrPipelineState};
use crate::segment::{Context, Segment};
use crate::strutil::{i64_to_string, push_char, spec_decimal_int};
use crate::style::{style_like, Style};
use crate::template::{spec_substitute, substitute, views_of_strs};

verus! {

/// The icon of the state-and-draft pair; nothing when the configured
/// icon is empty.
pub open spec fn spec_mr_state_icon(c: GlabMergeRequestConfig, p: MergeRequest) -> Seq<char> {
    let icon = match (p.state, p.is_draft) {
        (MergeRequestState::Open, false) => c.icons.open@,
        (MergeRequestState::Open, true) => c.icons.draft@,
        (MergeRequestState::Closed, _) => c.icons.closed@,
        (MergeRequestState::Merged, _) => c.icons.merged@,
    };
    if icon.len() == 0 {
        Seq::<char>::empty()
    } else {
        seq![' '] + icon
    }
}

/// The pipeline fragment: one icon per pipeline state, nothing when
/// there is no pipeline.
pub open spec fn spec_mr_pipeline(c: GlabMergeRequestConfig, p: MergeRequest) -> Seq<char> {
    match p.pipeline {
        MrPipelineState::Absent => Seq::<char>::empty(),
        MrPipelineState::Pending => seq![' '] + c.icons.pipeline_pending@,
        MrPipelineState::Running => seq![' '] + c.icons.pipeline_running@,
        MrPipelineState::Success => seq![' '] + c.icons.pipeline_success@,
        MrPipelineState::Failed => seq![' '] + c.icons.pipeline_failed@,
        MrPipelineState::Canceled => seq![' '] + c.icons.pipeline_canceled@,
    }
}

/// The approval fragment: the approval icon when approved, else
/// nothing.
pub open spec fn spec_mr_approved(c: GlabMergeRequestConfig, p: MergeRequest) -> Seq<char> {
    if p.is_approved {
        seq![' '] + c.icons.approved@
    } else {
        Seq::<char>::empty()
    }
}

/// The comment fragment: the comment icon and count when there are
/// comments, else nothing.
pub open spec fn spec_mr_comments(c: GlabMergeRequestConfig, p: MergeRequest) -> Seq<char> {
    if p.comments > 0 {
        seq![' '] + c.icons.comment@ + spec_decimal_int(p.comments as int)
    } else {
        Seq::<char>::empty()
    }
}

/// The style of the state-and-draft pair.
pub open spec fn spec_mr_style(c: GlabMergeRequestConfig, p: MergeRequest) -> Style {
    match (p.state, p.is_draft) {
        (MergeRequestState::Open, false) => c.open.style,
        (MergeRequestState::Open, true) => c.draft.style,
        (MergeRequestState::Closed, _) => c.closed.style,
        (MergeRequestState::Merged, _) => c.merged.style,
    }
}

/// The content of the merge-request segment.
pub open spec fn spec_build_mr(c: GlabMergeRequestConfig, p: MergeRequest) -> Seq<char> {
    spec_substitute(
        c.content@,
        seq![
            "{{.number}}"@,
            "{{.state}}"@,
            "{{.pipeline}}"@,
            "{{.approved}}"@,
            "{{.comments}}"@,
        ],
        seq![
            spec_decimal_int(p.number as int),
            spec_mr_state_icon(c, p),
            spec_mr_pipeline(c, p),
            spec_mr_approved(c, p),
            spec_mr_comments(c, p),
        ],
    )
}

/// The builder of the merge-request segment.
#[derive(Debug, Default)]
pub struct GlabMergeRequestSegmentBuilder {}

impl GlabMergeRequestSegmentBuilder {
    pub fn new() -> (r: Self) {
        GlabMergeRequestSegmentBuilder {  }
    }

    /// Renders number, state, pipeline, approval and comments; no
    /// segment without a merge request.
    pub fn build(&self, ctx: &Context) -> (r: Option<Segment>)
        ensures
            match r {
                Some(seg) => {
                    &&& ctx.glab_info matches Some(info)
                    &&& seg.content@ == spec_build_mr(
                        ctx.config.glab_merge_request,
                        info.merge_request,
                    )
                    &&& style_like(
                        seg.style,
                        spec_mr_style(ctx.config.glab_merge_request, info.merge_request),
                    )
                },
                None => ctx.glab_info is None,
            },
    {
        let config = &ctx.config.glab_merge_request;
        let info = match &ctx.glab_info {
            Option::Some(info) => info,
            Option::None => {
                return None;
            },
        };
        let p = &info.merge_request;
        let number = i64_to_string(p.number as i64);
        let icon = match (&p.state, p.is_draft) {
            (MergeRequestState::Open, false) => &config.icons.open,
            (MergeRequestState::Open, true) => &config.icons.draft,
            (MergeRequestState::Closed, _) => &config.icons.closed,
            (MergeRequestState::Merged, _) => &config.icons.merged,
        };
        let state_text: String = if icon.unicode_len() == 0 {
            String::new()
        } else {
            let mut t = String::new();
            push_char(&mut t, ' ');
            t.append(icon.as_str());
            assert(t@ =~= seq![' '] + icon@);
            t
        };
        let pipeline_text: String = match p.pipeline {
            MrPipelineState::Absent => String::new(),
            MrPipelineState::Pending => {
                let mut t = String::new();
                push_char(&mut t, ' ');
                t.append(config.icons.pipeline_pending.as_str());
                assert(t@ =~= seq![' '] + config.icons.pipeline_pending@);
                t
            },
            MrPipelineState::Running => {
                let mut t = String::new();
                push_char(&mut t, ' ');
                t.append(config.icons.pipeline_running.as_str());
                assert(t@ =~= seq![' '] + config.icons.pipeline_running@);
                t
            },
            MrPipelineState::Success => {
                let mut t = String::new();
                push_char(&mut t, ' ');
                t.append(config.icons.pipeline_success.as_str());
                assert(t@ =~= seq![' '] + config.icons.pipeline_success@);
                t
            },
            MrPipelineState::Failed => {
                let mut t = String::new();
                push_char(&mut t, ' ');
                t.append(config.icons.pipeline_failed.as_str());
                assert(t@ =~= seq![' '] + config.icons.pipeline_failed@);
                t
            },
            MrPipelineState::Canceled => {
                let mut t = String::new();
                push_char(&mut t, ' ');
                t.append(config.icons.pipeline_canceled.as_str());
                assert(t@ =~= seq![' '] + config.icons.pipeline_canceled@);
                t
            },
        };
        let approved_text: String = if p.is_approved {
            let mut t = String::new();
            push_char(&mut t, ' ');
            t.append(config.icons.approved.as_str());
            assert(t@ =~= seq![' '] + config.icons.approved@);
            t
        } else {
            String::new()
        };
        let comments_text: String = if p.comments > 0 {
            let mut t = String::new();
            push_char(&mut t, ' ');
            t.append(config.icons.comment.as_str());
            let n = i64_to_string(p.comments as i64);
            t.append(n.as_str());
            assert(t@ =~= seq![' '] + config.icons.comment@ + spec_decimal_int(p.comments as int));
            t
        } else {
            String::new()
        };
        let patterns: Vec<&str> = vec![
            "{{.number}}",
            "{{.state}}",
            "{{.pipeline}}",
            "{{.approved}}",
            "{{.comments}}",
        ];
        let replacements: Vec<&str> = vec![
            number.as_str(),
            state_text.as_str(),
            pipeline_text.as_str(),
            approved_text.as_str(),
            comments_text.as_str(),
        ];
        proof {
            assert(views_of_strs(patterns@) =~= seq![
                "{{.number}}"@,
                "{{.state}}"@,
                "{{.pipeline}}"@,
                "{{.approved}}"@,
                "{{.comments}}"@,
            ]);
            assert(views_of_strs(replacements@) =~= seq![
                spec_decimal_int(p.number as int),
                spec_mr_state_icon(ctx.config.glab_merge_request, *p),
                spec_mr_pipeline(ctx.config.glab_merge_request, *p),
                spec_mr_approved(ctx.config.glab_merge_request, *p),
                spec_mr_comments(ctx.config.glab_merge_request, *p),
            ]);
        }
        let content = substitute(config.content.as_str(), &patterns, &replacements);
        let style = match (&p.state, p.is_draft) {
            (MergeRequestState::Open, false) => config.open.style.duplicate(),
            (MergeRequestState::Open, true) => config.draft.style.duplicate(),
            (MergeRequestState::Closed, _) => config.closed.style.duplicate(),
            (MergeRequestState::Merged, _) => config.merged.style.duplicate(),
        };
        Some(Segment { content, style })
    }
}

} // verus!
