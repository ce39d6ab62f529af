//! The fine-tuning screen: the user marks a log excerpt as an error or as
//! not an error and describes what the model should have done.
use vstd::prelude::*;
use crate::text::concat4;
use crate::log::{LogEntry, LogView};

verus! {

/// The two kinds of training example.
#[derive(Clone, Copy, Debug, PartialEq, Eq, Structural)]
pub enum SubTab {
    IsError,
    IsNotError,
}

/// State of the fine-tuning screen.
pub struct FineTuneTab {
    pub active_sub_tab: SubTab,
    pub log_field: String,
    pub desc_field: String,
}

/// The content of a [`FineTuneTab`].
#[verifier::ext_equal]
pub struct FineTuneView {
    pub active_sub_tab: SubTab,
    pub log_field: Seq<char>,
    pub desc_field: Seq<char>,
}

impl View for FineTuneTab {
    type V = FineTuneView;

    open spec fn view(&self) -> FineTuneView {
        FineTuneView {
            active_sub_tab: self.active_sub_tab,
            log_field: self.log_field@,
            desc_field: self.desc_field@,
        }
    }
}

/// How an example of each kind is labelled.
pub open spec fn category(is_error_type: bool) -> Seq<char> {
    if is_error_type {
        "Считать ошибкой"@
    } else {
        "Не считать ошибкой"@
    }
}

/// What submitting an example logs: the log excerpt, with its kind and
/// description as details.
pub open spec fn training_log(s: FineTuneView, is_error_type: bool) -> LogView {
    LogView {
        tab: "Fine-Tuning"@,
        user_input: s.log_field,
        metadata: Some("Action: "@ + category(is_error_type) + ", Desc: "@ + s.desc_field),
    }
}

/// The screen after submitting: both fields are cleared.
pub open spec fn after_submit(s: FineTuneView) -> FineTuneView {
    FineTuneView { log_field: Seq::empty(), desc_field: Seq::empty(), ..s }
}

/// The colour that marks each kind: red for errors, green otherwise.
pub open spec fn accent(tab: SubTab) -> Seq<char> {
    match tab {
        SubTab::IsError => "#e74c3c"@,
        SubTab::IsNotError => "#2ecc71"@,
    }
}

/// The accent colour of the kind `tab`.
pub fn accent_color(tab: SubTab) -> (r: &'static str)
    ensures
        r@ == accent(tab),
{
    match tab {
        SubTab::IsError => "#e74c3c",
        SubTab::IsNotError => "#2ecc71",
    }
}

/// The colour of the submit button for the kind chosen by `is_error`.
pub fn submit_color(is_error: bool) -> (r: &'static str)
    ensures
        r@ == accent(if is_error { SubTab::IsError } else { SubTab::IsNotError }),
{
    if is_error {
        accent_color(SubTab::IsError)
    } else {
        accent_color(SubTab::IsNotError)
    }
}

/// Underline and text colour of the switch for `tab` while `active` is
/// chosen: the chosen one in its accent colour, the other grey and without
/// underline.
pub fn sub_tab_colors(active: SubTab, tab: SubTab) -> (r: (&'static str, &'static str))
    ensures
        active == tab ==> r.0@ == accent(tab) && r.1@ == accent(tab),
        active != tab ==> r.0@ == "transparent"@ && r.1@ == "#718096"@,
{
    if active == tab {
        (accent_color(tab), accent_color(tab))
    } else {
        ("transparent", "#718096")
    }
}

impl FineTuneTab {
    /// The error kind chosen, both fields empty.
    pub fn new() -> (r: FineTuneTab)
        ensures
            r@ == (FineTuneView {
                active_sub_tab: SubTab::IsError,
                log_field: Seq::empty(),
                desc_field: Seq::empty(),
            }),
    {
        FineTuneTab {
            active_sub_tab: SubTab::IsError,
            log_field: String::new(),
            desc_field: String::new(),
        }
    }

    /// Chooses the kind `tab`; the fields keep their text.
    pub fn select_sub_tab(&mut self, tab: SubTab)
        ensures
            final(self)@ == (FineTuneView { active_sub_tab: tab, ..old(self)@ }),
    {
        self.active_sub_tab = tab;
    }

    /// Whether the error kind is chosen.
    pub fn is_error_selected(&self) -> (r: bool)
        ensures
            r == (self.active_sub_tab == SubTab::IsError),
    {
        self.active_sub_tab == SubTab::IsError
    }

    /// Submits the example as an error or not; returns what is to be logged.
    pub fn submit_training(&mut self, is_error_type: bool) -> (r: LogEntry)
        ensures
            r@ == training_log(old(self)@, is_error_type),
            final(self)@ == after_submit(old(self)@),
    {
        let category = if is_error_type {
            "Считать ошибкой"
        } else {
            "Не считать ошибкой"
        };
        let metadata = concat4("Action: ", category, ", Desc: ", self.desc_field.as_str());
        let entry = LogEntry::new("Fine-Tuning", self.log_field.as_str(), Some(metadata));
        self.log_field = String::new();
        self.desc_field = String::new();
        entry
    }
}


/// Submitting logs exactly the text that was in the two fields, under the
/// label of the chosen kind, then clears both fields and keeps the kind; a
/// second submission right after logs an empty excerpt.
pub proof fn lemma_submit_logs_then_clears(s: FineTuneView, is_error_type: bool)
    ensures
        training_log(s, is_error_type).user_input == s.log_field,
        training_log(s, is_error_type).metadata == Some(
            "Action: "@ + category(is_error_type) + ", Desc: "@ + s.desc_field,
        ),
        after_submit(s).log_field.len() == 0,
        after_submit(s).desc_field.len() == 0,
        after_submit(s).active_sub_tab == s.active_sub_tab,
        training_log(after_submit(s), is_error_type).user_input.len() == 0,
{
}

/// Every training example, of either kind, is logged under "Fine-Tuning",
/// with its excerpt as the input and "Action: <kind label>, Desc: <text>"
/// as details, where the label is "Считать ошибкой" for errors and
/// "Не считать ошибкой" otherwise.
pub proof fn lemma_training_log_fields(s: FineTuneView, is_error_type: bool)
    ensures
        training_log(s, is_error_type).tab == "Fine-Tuning"@,
        training_log(s, is_error_type).user_input == s.log_field,
        is_error_type ==> training_log(s, is_error_type).metadata == Some(
            "Action: "@ + "Считать ошибкой"@ + ", Desc: "@ + s.desc_field,
        ),
        !is_error_type ==> training_log(s, is_error_type).metadata == Some(
            "Action: "@ + "Не считать ошибкой"@ + ", Desc: "@ + s.desc_field,
        ),
{
}

/// Errors are marked red and other examples green; the chosen switch and
/// the submit button take the chosen kind's colour.
pub proof fn lemma_accent_colors(tab: SubTab)
    ensures
        tab == SubTab::IsError ==> accent(tab) == "#e74c3c"@,
        tab == SubTab::IsNotError ==> accent(tab) == "#2ecc71"@,
{
}

} // verus!
