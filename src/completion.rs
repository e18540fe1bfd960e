use vstd::prelude::*;
use vstd::string::*;

use crate::error::GatewayError;
use crate::listing::{
    ListingForm, directory_names, file_names, listing_names, names_of, views,
};
use crate::outcome::{ProcessOutcome, decode_lossy, lossy_text, succeeded};
use crate::text::{at_most_one_word, has_prefix, joined, word_count};

verus! {

/// What to do next for a completion request.
pub enum CompletionStep {
    /// Run `script` under bash in the session's directory, then hand how it ended
    /// to `continue_completion` with `form`.
    Run { form: ListingForm, script: String },
    /// Hand this reply to the caller; nothing more to do.
    Reply(Result<Vec<String>, GatewayError>),
}

/// The first listing for a line: command names while the line holds at most one
/// word, file names after that.
pub open spec fn first_form(full_line: Seq<char>) -> ListingForm {
    if word_count(full_line) <= 1 {
        ListingForm::Commands
    } else {
        ListingForm::Files
    }
}

/// A partial path with a leading `~/` expanded against the home directory.
pub open spec fn expand_home(partial: Seq<char>, home: Seq<char>) -> Seq<char> {
    if "~/"@.is_prefix_of(partial) {
        home + partial.subrange(1, partial.len() as int)
    } else {
        partial
    }
}

/// The bash script that lists the names of a form that start with `partial`.
pub open spec fn listing_script(form: ListingForm, partial: Seq<char>, home: Seq<char>) -> Seq<
    char,
> {
    match form {
        ListingForm::Commands => "compgen -c "@ + partial + " | sort | uniq"@,
        ListingForm::Files => "compgen -f "@ + expand_home(partial, home) + " | sort"@,
        ListingForm::Directories => "compgen -d "@ + partial + " | sort"@,
    }
}

/// A successful listing that is followed by a listing of directories: one of
/// file names that found none.
pub open spec fn falls_back(form: ListingForm, names: Seq<Seq<char>>) -> bool {
    form == ListingForm::Files && names.len() == 0
}

fn script_for(form: ListingForm, partial: &str, home: &str) -> (r: String)
    ensures
        r@ == listing_script(form, partial@, home@),
{
    match form {
        ListingForm::Commands => {
            let mut r = joined("compgen -c ", partial);
            r.append(" | sort | uniq");
            r
        },
        ListingForm::Files => {
            let mut r = String::from_str("compgen -f ");
            if has_prefix(partial, "~/") {
                proof {
                    reveal_strlit("~/");
                }
                r.append(home);
                r.append(partial.substring_char(1, partial.unicode_len()));
            } else {
                r.append(partial);
            }
            r.append(" | sort");
            proof {
                assert(r@ =~= listing_script(form, partial@, home@));
            }
            r
        },
        ListingForm::Directories => {
            let mut r = joined("compgen -d ", partial);
            r.append(" | sort");
            r
        },
    }
}

/// Start completing `partial`, the word under the cursor of `full_line`.
pub fn begin_completion(partial: &str, full_line: &str, home: &str) -> (r: CompletionStep)
    ensures
        r is Run,
        r->Run_form == first_form(full_line@),
        r->Run_script@ == listing_script(first_form(full_line@), partial@, home@),
{
    let form = if at_most_one_word(full_line) {
        ListingForm::Commands
    } else {
        ListingForm::Files
    };
    CompletionStep::Run { form, script: script_for(form, partial, home) }
}

/// Go on with a completion, given how the listing of `form` ended. A failed
/// listing, of whatever form, is an error with its standard error text. A
/// listing of files that found none is followed by one of directories.
pub fn continue_completion(
    form: ListingForm,
    partial: &str,
    home: &str,
    outcome: ProcessOutcome,
) -> (r: CompletionStep)
    ensures
        match outcome {
            ProcessOutcome::SpawnFailed(e) => r == CompletionStep::Reply(
                Err(GatewayError::Transport(e)),
            ),
            ProcessOutcome::Exited { code, stdout, stderr } => if !succeeded(code) {
                r is Reply && r->Reply_0 is Err && r->Reply_0->Err_0 is Command
                    && r->Reply_0->Err_0.text() == lossy_text(stderr@)
            } else if falls_back(form, names_of(form, stdout@, home@)) {
                r is Run && r->Run_form == ListingForm::Directories && r->Run_script@
                    == listing_script(ListingForm::Directories, partial@, home@)
            } else {
                r is Reply && r->Reply_0 is Ok && views(r->Reply_0->Ok_0@) == names_of(
                    form,
                    stdout@,
                    home@,
                ) && forall|i: int|
                    0 <= i < r->Reply_0->Ok_0@.len() ==> (#[trigger] r->Reply_0->Ok_0@[i])@.len()
                        > 0
            },
        },
{
    match outcome {
        ProcessOutcome::SpawnFailed(e) => CompletionStep::Reply(Err(GatewayError::Transport(e))),
        ProcessOutcome::Exited { code, stdout, stderr } => {
            if code != Some(0i32) {
                CompletionStep::Reply(Err(GatewayError::Command(decode_lossy(stderr.as_slice()))))
            } else {
                let names = listing_names(form, stdout.as_slice(), home);
                if form == ListingForm::Files && names.len() == 0 {
                    let script = script_for(ListingForm::Directories, partial, home);
                    CompletionStep::Run { form: ListingForm::Directories, script }
                } else {
                    CompletionStep::Reply(Ok(names))
                }
            }
        },
    }
}

/// Completing the only word of a line lists command names and nothing after them;
/// completing a later word lists file names, and lists directories only where no
/// file name matched, each directory name ending in a separator.
pub proof fn lemma_completion_by_word_position(
    full_line: Seq<char>,
    stdout: Seq<u8>,
    home: Seq<char>,
)
    ensures
        word_count(full_line) <= 1 ==> first_form(full_line) == ListingForm::Commands
            && !falls_back(ListingForm::Commands, names_of(ListingForm::Commands, stdout, home)),
        word_count(full_line) > 1 ==> first_form(full_line) == ListingForm::Files,
        falls_back(ListingForm::Files, file_names(stdout, home)) <==> file_names(
            stdout,
            home,
        ).len() == 0,
        !falls_back(ListingForm::Directories, directory_names(stdout)),
        forall|i: int|
            0 <= i < directory_names(stdout).len() ==> (#[trigger] directory_names(stdout)[i]).last()
                == '/',
{
    reveal_strlit("/");
}

} // verus!
