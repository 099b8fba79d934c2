//! The check suite for template version 3: the version-2 checks plus rules
//! over the briefing files.

use vstd::prelude::*;

use crate::annotation::{spec_annotation, Annotation, AnnotationData, Level, SourceFile};
use crate::checks::description::{name_summary_author, spec_name_summary_author};
use crate::checks::time::{spec_time, time};
use crate::text::{contains_str, spec_contains, spec_join, spec_starts_with, starts_with, str_eq};
use crate::tree::{Document, Node, Span};

verus! {

/// How many characters a briefing may reach before it no longer fits the
/// announcement channel.
pub const BRIEFING_LIMIT: usize = 1900;

/// The mathematical content of one briefing file.
pub struct BriefingFileView {
    pub path: Seq<char>,
    pub name: Seq<char>,
    pub extension: Option<Seq<char>>,
    pub content: Seq<char>,
}

/// One briefing file, as the caller found it on disk: its path, bare file
/// name, extension (when it has one) and text.
#[derive(Debug)]
pub struct BriefingFile {
    pub path: String,
    pub name: String,
    pub extension: Option<String>,
    pub content: String,
}

impl View for BriefingFile {
    type V = BriefingFileView;

    open spec fn view(&self) -> BriefingFileView {
        BriefingFileView {
            path: self.path@,
            name: self.name@,
            extension: match self.extension {
                Some(e) => Some(e@),
                None => None,
            },
            content: self.content@,
        }
    }
}

impl DeepView for BriefingFile {
    type V = BriefingFileView;

    open spec fn deep_view(&self) -> BriefingFileView {
        self.view()
    }
}

/// A sum that stops at the machine limit.
pub open spec fn spec_sat_add(a: int, b: int) -> int {
    if a + b > usize::MAX {
        usize::MAX as int
    } else {
        a + b
    }
}

/// One message against a briefing file.
pub open spec fn spec_briefing_msg(path: Seq<char>, message: Seq<char>) -> AnnotationData {
    spec_annotation(None, path, Seq::empty(), Span { start: 0, end: 0 }, message, Level::Error)
}

/// What one briefing file contributes: messages, and its length where it
/// counts toward the combined mission-and-objectives total.
pub open spec fn spec_briefing_step(
    st: (Seq<AnnotationData>, int),
    f: BriefingFileView,
) -> (Seq<AnnotationData>, int) {
    let msgs = match f.extension {
        Some(ext) => (if ext != "html"@ {
            seq![spec_briefing_msg(f.path, "Briefing file is not an HTML file"@)]
        } else {
            Seq::empty()
        }) + (if spec_contains(f.content, "INSERT"@) {
            seq![spec_briefing_msg(f.path, "Briefing file is not edited"@)]
        } else {
            Seq::empty()
        }),
        None => Seq::empty(),
    };
    let msgs2 = msgs + (if f.name == "situation.html"@ && f.content.len() > BRIEFING_LIMIT {
        seq![spec_briefing_msg(f.path, "Situation briefing is too long for Discord"@)]
    } else {
        Seq::empty()
    });
    let combined = if f.name == "mission.html"@ || f.name == "objectives.html"@ {
        spec_sat_add(st.1, f.content.len() as int)
    } else {
        st.1
    };
    (st.0 + msgs2, combined)
}

/// The walk over a run of briefing files, first to last.
pub open spec fn spec_briefing_fold(
    st: (Seq<AnnotationData>, int),
    files: Seq<BriefingFileView>,
) -> (Seq<AnnotationData>, int)
    decreases files.len(),
{
    if files.len() == 0 {
        st
    } else {
        spec_briefing_fold(spec_briefing_step(st, files[0]), files.drop_first())
    }
}

/// Everything the briefing check returns: per-file messages in list order,
/// then one error when mission and objectives together outgrow the limit.
pub open spec fn spec_briefing(dir: Seq<char>, files: Seq<BriefingFileView>) -> Seq<
    AnnotationData,
> {
    let briefing_path = spec_join(spec_join(dir, "edit_me"@), "briefing"@);
    let st = spec_briefing_fold((Seq::empty(), 0), files);
    st.0 + (if st.1 > BRIEFING_LIMIT {
        seq![
            spec_briefing_msg(
                briefing_path,
                "Combined briefing (mission & objectives) is too long for Discord"@,
            ),
        ]
    } else {
        Seq::empty()
    })
}

/// Checks the briefing files: each must be HTML, edited away from the
/// template placeholder, and short enough for the announcement channel —
/// the situation alone, and mission and objectives together. Lengths are
/// counted in characters.
pub fn briefing(dir: &str, files: &Vec<BriefingFile>) -> (r: Vec<Annotation>)
    ensures
        r.deep_view() == spec_briefing(dir@, files.deep_view()),
{
    proof {
        reveal_strlit("");
    }
    let briefing_path = crate::text::join_path(crate::text::join_path(dir, "edit_me").as_str(), "briefing");
    let mut messages: Vec<Annotation> = Vec::new();
    let mut combined: usize = 0;
    let n = files.len();
    proof {
        assert(files.deep_view().subrange(0, n as int) =~= files.deep_view());
        assert(messages.deep_view() =~= Seq::<AnnotationData>::empty());
    }
    let mut i: usize = 0;
    while i < n
        invariant
            n == files@.len(),
            n == files.deep_view().len(),
            i <= n,
            spec_briefing_fold(
                (messages.deep_view(), combined as int),
                files.deep_view().subrange(i as int, n as int),
            ) == spec_briefing_fold((Seq::empty(), 0), files.deep_view()),
        decreases n - i,
    {
        let ghost pre = files.deep_view().subrange(i as int, n as int);
        let ghost st_before = (messages.deep_view(), combined as int);
        proof {
            reveal_strlit("");
            assert(pre[0] == files.deep_view()[i as int]);
            assert(pre.drop_first() =~= files.deep_view().subrange(i + 1, n as int));
        }
        let file = &files[i];
        match &file.extension {
            Some(ext) => {
                if !str_eq(ext.as_str(), "html") {
                    let a = Annotation::new(
                        None,
                        file.path.clone(),
                        "",
                        Span { start: 0, end: 0 },
                        String::from_str("Briefing file is not an HTML file"),
                        Level::Error,
                    );
                    let ghost before = messages.deep_view();
                    messages.push(a);
                    proof {
                        assert(messages.deep_view() =~= before + seq![a@]);
                    }
                }
                if contains_str(file.content.as_str(), "INSERT") {
                    let a = Annotation::new(
                        None,
                        file.path.clone(),
                        "",
                        Span { start: 0, end: 0 },
                        String::from_str("Briefing file is not edited"),
                        Level::Error,
                    );
                    let ghost before = messages.deep_view();
                    messages.push(a);
                    proof {
                        assert(messages.deep_view() =~= before + seq![a@]);
                    }
                }
            },
            None => {},
        }
        if str_eq(file.name.as_str(), "situation.html") {
            let len = file.content.as_str().unicode_len();
            if len > BRIEFING_LIMIT {
                let a = Annotation::new(
                    None,
                    file.path.clone(),
                    "",
                    Span { start: 0, end: 0 },
                    String::from_str("Situation briefing is too long for Discord"),
                    Level::Error,
                );
                let ghost before = messages.deep_view();
                messages.push(a);
                proof {
                    assert(messages.deep_view() =~= before + seq![a@]);
                }
            }
        }
        if str_eq(file.name.as_str(), "mission.html") || str_eq(file.name.as_str(), "objectives.html") {
            let len = file.content.as_str().unicode_len();
            combined = match combined.checked_add(len) {
                Some(c) => c,
                None => usize::MAX,
            };
        }
        proof {
            assert((messages.deep_view(), combined as int) == spec_briefing_step(
                st_before,
                files.deep_view()[i as int],
            )) by {
                assert(messages.deep_view() =~= spec_briefing_step(
                    st_before,
                    files.deep_view()[i as int],
                ).0);
            };
        }
        i = i + 1;
    }
    proof {
        assert(files.deep_view().subrange(n as int, n as int).len() == 0);
    }
    if combined > BRIEFING_LIMIT {
        let a = Annotation::new(
            None,
            briefing_path,
            "",
            Span { start: 0, end: 0 },
            String::from_str("Combined briefing (mission & objectives) is too long for Discord"),
            Level::Error,
        );
        let ghost before = messages.deep_view();
        messages.push(a);
        proof {
            assert(messages.deep_view() =~= before + seq![a@]);
        }
    }
    proof {
        assert(messages.deep_view() =~= spec_briefing(dir@, files.deep_view()));
    }
    messages
}

/// Everything the version-3 suite returns.
pub open spec fn spec_check(
    dir: Seq<char>,
    dir_name: Seq<char>,
    mission: (SourceFile, Seq<Node>),
    config: (SourceFile, Seq<Node>),
    files: Seq<BriefingFileView>,
) -> Seq<AnnotationData> {
    (if !spec_starts_with(dir_name, "TT"@) {
        spec_name_summary_author(dir, config.0, config.1) + spec_briefing(dir, files)
    } else {
        Seq::empty()
    }) + spec_time(dir, mission, config)
}

/// Runs the version-3 suite: the description and briefing checks — except
/// in template directories, whose names start with `TT` — then the
/// start-time check.
pub fn check(
    dir: &str,
    dir_name: &str,
    mission: (&SourceFile, &Document),
    config: (&SourceFile, &Document),
    files: &Vec<BriefingFile>,
) -> (r: Vec<Annotation>)
    requires
        mission.0.wf(),
        config.0.wf(),
    ensures
        r.deep_view() == spec_check(
            dir@,
            dir_name@,
            (*mission.0, mission.1.nodes@),
            (*config.0, config.1.nodes@),
            files.deep_view(),
        ),
{
    let mut messages: Vec<Annotation> = Vec::new();
    if !starts_with(dir_name, "TT") {
        let mut head = name_summary_author(dir, config);
        let ghost head_view = head.deep_view();
        messages.append(&mut head);
        let mut brief = briefing(dir, files);
        let ghost brief_view = brief.deep_view();
        messages.append(&mut brief);
        proof {
            assert(messages.deep_view() =~= head_view + brief_view);
        }
    }
    let ghost before_time = messages.deep_view();
    let mut tail = time(dir, mission, config);
    let ghost tail_view = tail.deep_view();
    messages.append(&mut tail);
    proof {
        assert(messages.deep_view() =~= before_time + tail_view);
        assert(Seq::<AnnotationData>::empty() + tail_view =~= tail_view);
        assert(messages.deep_view() =~= spec_check(
            dir@,
            dir_name@,
            (*mission.0, mission.1.nodes@),
            (*config.0, config.1.nodes@),
            files.deep_view(),
        ));
    }
    messages
}

} // verus!
