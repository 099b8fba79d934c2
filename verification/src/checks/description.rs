//! Checks over the editable description: the mission's display name,
//! summary and author must be present, be strings, and be edited away from
//! their template placeholders.

use vstd::prelude::*;

use crate::annotation::{spec_annotation, Annotation, AnnotationData, Level, SourceFile};
use crate::text::{
    contains_str, ends_with, join_path, spec_contains, spec_ends_with, spec_join,
    spec_starts_with, starts_with, str_eq,
};
use crate::tree::{Document, Node, Span, Value};

verus! {

/// The accumulator of the description walk.
#[verifier::ext_equal]
pub struct DescState {
    pub found_name: bool,
    pub found_summary: bool,
    pub found_author: bool,
    pub messages: Seq<AnnotationData>,
}

/// One message against the editable description.
pub open spec fn spec_desc_msg(
    m: SourceFile,
    path: Seq<char>,
    span: Span,
    message: Seq<char>,
    level: Level,
) -> AnnotationData {
    spec_annotation(Some(m.mapping.entries@), path, m.content@, span, message, level)
}

/// What one display-name entry contributes.
pub open spec fn spec_name_msgs(m: SourceFile, path: Seq<char>, value: Value) -> Seq<
    AnnotationData,
> {
    match value {
        Value::Str { value: v, span } => if v@ == "MISSION NAME"@ {
            seq![spec_desc_msg(m, path, span, "OnLoadName is not set"@, Level::Error)]
        } else {
            Seq::empty()
        },
        _ => seq![
            spec_desc_msg(m, path, value.spec_span(), "OnLoadName is not a string"@, Level::Error),
        ],
    }
}

/// What one summary entry contributes.
pub open spec fn spec_summary_msgs(m: SourceFile, path: Seq<char>, value: Value) -> Seq<
    AnnotationData,
> {
    match value {
        Value::Str { value: v, span } => (if v@ == "MISSION SUMMARY"@ {
            seq![spec_desc_msg(m, path, span, "OnLoadMission is not set"@, Level::Error)]
        } else {
            Seq::empty()
        }) + (if spec_ends_with(v@, "."@) {
            seq![spec_desc_msg(m, path, span, "OnLoadMission ends with a period"@, Level::Warning)]
        } else if spec_contains(v@, ". "@) {
            seq![
                spec_desc_msg(
                    m,
                    path,
                    span,
                    "OnLoadMission should be a single sentence"@,
                    Level::Warning,
                ),
            ]
        } else {
            Seq::empty()
        }),
        _ => seq![
            spec_desc_msg(
                m,
                path,
                value.spec_span(),
                "OnLoadMission is not a string"@,
                Level::Error,
            ),
        ],
    }
}

/// What one author entry contributes.
pub open spec fn spec_author_msgs(m: SourceFile, path: Seq<char>, value: Value) -> Seq<
    AnnotationData,
> {
    match value {
        Value::Str { value: v, span } => if spec_starts_with(v@, "YOUR NAME"@) {
            seq![spec_desc_msg(m, path, span, "author is not set"@, Level::Error)]
        } else {
            Seq::empty()
        },
        _ => seq![
            spec_desc_msg(m, path, value.spec_span(), "author is not a string"@, Level::Error),
        ],
    }
}

/// The walk's step over one top-level node.
pub open spec fn spec_desc_step(
    st: DescState,
    m: SourceFile,
    path: Seq<char>,
    node: Node,
) -> DescState {
    match node {
        Node::Entry { name, value } => {
            let st1 = if name@ == "OnLoadName"@ {
                DescState {
                    found_name: true,
                    messages: st.messages + spec_name_msgs(m, path, value),
                    ..st
                }
            } else {
                st
            };
            let st2 = if name@ == "OnLoadMission"@ {
                DescState {
                    found_summary: true,
                    messages: st1.messages + spec_summary_msgs(m, path, value),
                    ..st1
                }
            } else {
                st1
            };
            if name@ == "author"@ {
                DescState {
                    found_author: true,
                    messages: st2.messages + spec_author_msgs(m, path, value),
                    ..st2
                }
            } else {
                st2
            }
        },
        Node::Class { .. } => st,
    }
}

/// The walk over a run of top-level nodes, first to last.
pub open spec fn spec_desc_fold(
    st: DescState,
    m: SourceFile,
    path: Seq<char>,
    nodes: Seq<Node>,
) -> DescState
    decreases nodes.len(),
{
    if nodes.len() == 0 {
        st
    } else {
        spec_desc_fold(spec_desc_step(st, m, path, nodes[0]), m, path, nodes.drop_first())
    }
}

/// Everything `name_summary_author` returns: the per-entry messages in
/// document order, then one message for each of the three entries that
/// never appeared.
pub open spec fn spec_name_summary_author(
    dir: Seq<char>,
    m: SourceFile,
    doc: Seq<Node>,
) -> Seq<AnnotationData> {
    let path = spec_join(spec_join(dir, "edit_me"@), "description.ext"@);
    let st = spec_desc_fold(
        DescState {
            found_name: false,
            found_summary: false,
            found_author: false,
            messages: Seq::empty(),
        },
        m,
        path,
        doc,
    );
    st.messages + (if !st.found_name {
        seq![
            spec_desc_msg(m, path, Span { start: 0, end: 0 }, "OnLoadName is missing"@, Level::Error),
        ]
    } else {
        Seq::empty()
    }) + (if !st.found_summary {
        seq![
            spec_desc_msg(
                m,
                path,
                Span { start: 0, end: 0 },
                "OnLoadMission is missing"@,
                Level::Error,
            ),
        ]
    } else {
        Seq::empty()
    }) + (if !st.found_author {
        seq![
            spec_desc_msg(m, path, Span { start: 0, end: 0 }, "author is missing"@, Level::Error),
        ]
    } else {
        Seq::empty()
    })
}

/// Checks the editable description's display name, summary and author:
/// each must be present, hold a string, and not be the template
/// placeholder; the summary must read as one sentence without a closing
/// period.
pub fn name_summary_author(dir: &str, config: (&SourceFile, &Document)) -> (r: Vec<Annotation>)
    requires
        config.0.wf(),
    ensures
        r.deep_view() == spec_name_summary_author(dir@, *config.0, config.1.nodes@),
{
    let path = join_path(join_path(dir, "edit_me").as_str(), "description.ext");
    let content = config.0.content.as_str();
    let ghost m = *config.0;
    let mut found_name: bool = false;
    let mut found_summary: bool = false;
    let mut found_author: bool = false;
    let mut messages: Vec<Annotation> = Vec::new();
    let ghost st0 = DescState {
        found_name: false,
        found_summary: false,
        found_author: false,
        messages: Seq::empty(),
    };
    let nodes = config.1.nodes.as_slice();
    let n = nodes.len();
    proof {
        assert(nodes@.subrange(0, n as int) =~= nodes@);
        assert(messages.deep_view() =~= Seq::<AnnotationData>::empty());
        assert((DescState { found_name, found_summary, found_author, messages: messages.deep_view() })
            =~= st0);
    }
    let mut i: usize = 0;
    while i < n
        invariant
            n == nodes@.len(),
            i <= n,
            config.0.wf(),
            m == *config.0,
            path@ == spec_join(spec_join(dir@, "edit_me"@), "description.ext"@),
            content@ == m.content@,
            spec_desc_fold(
                DescState { found_name, found_summary, found_author, messages: messages.deep_view() },
                m,
                path@,
                nodes@.subrange(i as int, n as int),
            ) == spec_desc_fold(st0, m, path@, nodes@),
        decreases n - i,
    {
        let ghost pre = nodes@.subrange(i as int, n as int);
        let ghost st_before = DescState {
            found_name,
            found_summary,
            found_author,
            messages: messages.deep_view(),
        };
        proof {
            assert(pre[0] == nodes@[i as int]);
            assert(pre.drop_first() =~= nodes@.subrange(i + 1, n as int));
        }
        match &nodes[i] {
            Node::Entry { name, value } => {
                if str_eq(name.as_str(), "OnLoadName") {
                    found_name = true;
                    let ghost before = messages.deep_view();
                    match value {
                        Value::Str { value: v, span } => {
                            if str_eq(v.as_str(), "MISSION NAME") {
                                let a = Annotation::new(
                                    Some(&config.0.mapping),
                                    path.clone(),
                                    content,
                                    *span,
                                    String::from_str("OnLoadName is not set"),
                                    Level::Error,
                                );
                                messages.push(a);
                                proof {
                                    assert(messages.deep_view() =~= before + seq![a@]);
                                }
                            }
                        },
                        _ => {
                            let a = Annotation::new(
                                Some(&config.0.mapping),
                                path.clone(),
                                content,
                                value.span(),
                                String::from_str("OnLoadName is not a string"),
                                Level::Error,
                            );
                            messages.push(a);
                            proof {
                                assert(messages.deep_view() =~= before + seq![a@]);
                            }
                        },
                    }
                    proof {
                        assert(messages.deep_view() =~= before + spec_name_msgs(m, path@, *value));
                    }
                }
                if str_eq(name.as_str(), "OnLoadMission") {
                    found_summary = true;
                    let ghost before = messages.deep_view();
                    match value {
                        Value::Str { value: v, span } => {
                            if str_eq(v.as_str(), "MISSION SUMMARY") {
                                let a = Annotation::new(
                                    Some(&config.0.mapping),
                                    path.clone(),
                                    content,
                                    *span,
                                    String::from_str("OnLoadMission is not set"),
                                    Level::Error,
                                );
                                messages.push(a);
                                proof {
                                    assert(messages.deep_view() =~= before + seq![a@]);
                                }
                            }
                            let ghost mid = messages.deep_view();
                            if ends_with(v.as_str(), ".") {
                                let a = Annotation::new(
                                    Some(&config.0.mapping),
                                    path.clone(),
                                    content,
                                    *span,
                                    String::from_str("OnLoadMission ends with a period"),
                                    Level::Warning,
                                );
                                messages.push(a);
                                proof {
                                    assert(messages.deep_view() =~= mid + seq![a@]);
                                }
                            } else if contains_str(v.as_str(), ". ") {
                                let a = Annotation::new(
                                    Some(&config.0.mapping),
                                    path.clone(),
                                    content,
                                    *span,
                                    String::from_str("OnLoadMission should be a single sentence"),
                                    Level::Warning,
                                );
                                messages.push(a);
                                proof {
                                    assert(messages.deep_view() =~= mid + seq![a@]);
                                }
                            }
                        },
                        _ => {
                            let a = Annotation::new(
                                Some(&config.0.mapping),
                                path.clone(),
                                content,
                                value.span(),
                                String::from_str("OnLoadMission is not a string"),
                                Level::Error,
                            );
                            messages.push(a);
                            proof {
                                assert(messages.deep_view() =~= before + seq![a@]);
                            }
                        },
                    }
                    proof {
                        assert(messages.deep_view() =~= before + spec_summary_msgs(
                            m,
                            path@,
                            *value,
                        ));
                    }
                }
                if str_eq(name.as_str(), "author") {
                    found_author = true;
                    let ghost before = messages.deep_view();
                    match value {
                        Value::Str { value: v, span } => {
                            if starts_with(v.as_str(), "YOUR NAME") {
                                let a = Annotation::new(
                                    Some(&config.0.mapping),
                                    path.clone(),
                                    content,
                                    *span,
                                    String::from_str("author is not set"),
                                    Level::Error,
                                );
                                messages.push(a);
                                proof {
                                    assert(messages.deep_view() =~= before + seq![a@]);
                                }
                            }
                        },
                        _ => {
                            let a = Annotation::new(
                                Some(&config.0.mapping),
                                path.clone(),
                                content,
                                value.span(),
                                String::from_str("author is not a string"),
                                Level::Error,
                            );
                            messages.push(a);
                            proof {
                                assert(messages.deep_view() =~= before + seq![a@]);
                            }
                        },
                    }
                    proof {
                        assert(messages.deep_view() =~= before + spec_author_msgs(m, path@, *value));
                    }
                }
            },
            Node::Class { .. } => {},
        }
        proof {
            assert((DescState {
                found_name,
                found_summary,
                found_author,
                messages: messages.deep_view(),
            }) =~= spec_desc_step(st_before, m, path@, nodes@[i as int]));
        }
        i = i + 1;
    }
    proof {
        assert(nodes@.subrange(n as int, n as int).len() == 0);
        assert(nodes@.subrange(0, n as int) =~= nodes@);
    }
    if !found_name {
        let a = Annotation::new(
            Some(&config.0.mapping),
            path.clone(),
            content,
            Span { start: 0, end: 0 },
            String::from_str("OnLoadName is missing"),
            Level::Error,
        );
        let ghost before = messages.deep_view();
        messages.push(a);
        proof {
            assert(messages.deep_view() =~= before + seq![a@]);
        }
    }
    if !found_summary {
        let a = Annotation::new(
            Some(&config.0.mapping),
            path.clone(),
            content,
            Span { start: 0, end: 0 },
            String::from_str("OnLoadMission is missing"),
            Level::Error,
        );
        let ghost before = messages.deep_view();
        messages.push(a);
        proof {
            assert(messages.deep_view() =~= before + seq![a@]);
        }
    }
    if !found_author {
        let a = Annotation::new(
            Some(&config.0.mapping),
            path.clone(),
            content,
            Span { start: 0, end: 0 },
            String::from_str("author is missing"),
            Level::Error,
        );
        let ghost before = messages.deep_view();
        messages.push(a);
        proof {
            assert(messages.deep_view() =~= before + seq![a@]);
        }
    }
    proof {
        assert(messages.deep_view() =~= spec_name_summary_author(dir@, *config.0, config.1.nodes@));
    }
    messages
}

} // verus!
