use vstd::prelude::*;
use vstd::string::*;

use crate::issues::{has_level, max_level, ResolveIssueLevel};
use crate::resolve::ResolvedLink;

verus! {

/// One line of the plan's report, before any colouring: a status mark,
/// the source and the destination as declared, each with the worst
/// severity among its anchor's issues.
#[derive(Debug)]
pub struct ReportLine {
    /// No anchor of the link has an error.
    pub ok: bool,
    pub src: String,
    pub src_level: Option<ResolveIssueLevel>,
    pub dest: String,
    pub dest_level: Option<ResolveIssueLevel>,
}

impl ResolvedLink {
    /// The report line of this link. `src_is_dir` tells whether the resolved
    /// source is a directory, which the line shows with a trailing `/`.
    pub fn report_line(&self, src_is_dir: bool) -> (r: ReportLine)
        ensures
            r.ok == !(has_level(self.src.issues@, ResolveIssueLevel::Error) || has_level(
                self.dest.issues@,
                ResolveIssueLevel::Error,
            )),
            r.src@ == if src_is_dir {
                self.src.original.path@.push('/')
            } else {
                self.src.original.path@
            },
            r.src_level == max_level(self.src.issues@),
            r.dest@ == self.dest.original.path@,
            r.dest_level == max_level(self.dest.issues@),
    {
        let mut src = self.src.original.path.clone();
        if src_is_dir {
            src.append("/");
            proof {
                reveal_strlit("/");
            }
        }
        ReportLine {
            ok: !self.has_errors(),
            src,
            src_level: self.src.max_issue_level(),
            dest: self.dest.original.path.clone(),
            dest_level: self.dest.max_issue_level(),
        }
    }
}

} // verus!
