use vstd::prelude::*;

use crate::code_snippet::{lemma_build_like, spec_build};
use crate::{
    spec_append_with_blank, FriendlyCodeSnippet, FriendlyError, FriendlyErrorError,
};

verus! {

/// Running the snippets left to right from the text `cur`: each successful
/// build is appended as its own section; the first failure stops the run,
/// leaving the text as it stood.
pub open spec fn spec_run_snippets(cur: Seq<char>, snippets: Seq<FriendlyCodeSnippet>) -> (
    Seq<char>,
    Result<bool, FriendlyErrorError>,
)
    decreases snippets.len(),
{
    if snippets.len() == 0 {
        (cur, Ok(true))
    } else {
        match spec_build(snippets[0]) {
            Ok(block) => spec_run_snippets(
                spec_append_with_blank(cur, block),
                snippets.drop_first(),
            ),
            Err(e) => (cur, Err(FriendlyErrorError::CodeSnippetError(e))),
        }
    }
}

/// Whether every snippet builds, or the first failure, wrapped.
pub open spec fn spec_snippets_verdict(snippets: Seq<FriendlyCodeSnippet>) -> Result<
    bool,
    FriendlyErrorError,
>
    decreases snippets.len(),
{
    if snippets.len() == 0 {
        Ok(true)
    } else {
        match spec_build(snippets[0]) {
            Ok(_) => spec_snippets_verdict(snippets.drop_first()),
            Err(e) => Err(FriendlyErrorError::CodeSnippetError(e)),
        }
    }
}

/// The verdict of a run does not depend on the text it started from.
pub proof fn lemma_run_snippets_verdict(cur: Seq<char>, snippets: Seq<FriendlyCodeSnippet>)
    ensures
        spec_run_snippets(cur, snippets).1 == spec_snippets_verdict(snippets),
    decreases snippets.len(),
{
    if snippets.len() > 0 {
        match spec_build(snippets[0]) {
            Ok(block) => {
                lemma_run_snippets_verdict(
                    spec_append_with_blank(cur, block),
                    snippets.drop_first(),
                );
            },
            Err(_) => {},
        }
    }
}

impl FriendlyError {
    /// Renders every attached snippet in order, each as a section of its own;
    /// stops at and reports the first snippet that fails to build.
    pub fn print_code_snippets(&mut self) -> (r: Result<bool, FriendlyErrorError>)
        ensures
            final(self).data == old(self).data,
            final(self).output@ == spec_run_snippets(
                old(self).output@,
                old(self).data.code_snippets@,
            ).0,
            r == spec_run_snippets(old(self).output@, old(self).data.code_snippets@).1,
    {
        let total = self.data.code_snippets.len();
        proof {
            assert(self.data.code_snippets@.skip(0) =~= self.data.code_snippets@);
        }
        let mut i: usize = 0;
        while i < total
            invariant
                0 <= i <= total,
                total == self.data.code_snippets@.len(),
                self.data == old(self).data,
                spec_run_snippets(old(self).output@, old(self).data.code_snippets@)
                    == spec_run_snippets(self.output@, self.data.code_snippets@.skip(i as int)),
            decreases total - i,
        {
            let snippet = self.data.code_snippets[i].clone();
            proof {
                lemma_build_like(self.data.code_snippets@[i as int], snippet);
                assert(self.data.code_snippets@.skip(i as int)[0]
                    == self.data.code_snippets@[i as int]);
                assert(self.data.code_snippets@.skip(i as int).drop_first()
                    =~= self.data.code_snippets@.skip(i as int + 1));
            }
            match snippet.build() {
                Ok(block) => {
                    self.add_empty_line();
                    self.output.append(block.as_str());
                },
                Err(err) => {
                    return Err(FriendlyErrorError::CodeSnippetError(err));
                },
            }
            i = i + 1;
        }
        Ok(true)
    }
}

} // verus!
