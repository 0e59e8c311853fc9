//! The fixed table from component kinds to the templates they render.

use vstd::prelude::*;

verus! {

/// The kinds of component that can be generated.
#[derive(Clone, Copy, Debug, PartialEq, Eq, Structural)]
pub enum Kind {
    Model,
    Controller,
    Task,
    Worker,
    Mailer,
}

/// Identifies one template of the built-in set.
#[derive(Clone, Copy, Debug, PartialEq, Eq, Structural)]
pub enum Template {
    Model,
    ModelTest,
    Controller,
    RequestTest,
    Task,
    Worker,
    Mailer,
    MailerSub,
    MailerText,
    MailerHtml,
}

/// The templates of a kind, in the order in which they are rendered.
pub open spec fn catalog(kind: Kind) -> Seq<Template> {
    match kind {
        Kind::Model => seq![Template::Model, Template::ModelTest],
        Kind::Controller => seq![Template::Controller, Template::RequestTest],
        Kind::Task => seq![Template::Task],
        Kind::Worker => seq![Template::Worker],
        Kind::Mailer => seq![
            Template::Mailer,
            Template::MailerSub,
            Template::MailerText,
            Template::MailerHtml,
        ],
    }
}

/// Whether the messages of a kind's renders are shown once they are all done.
pub open spec fn reports(kind: Kind) -> bool {
    kind == Kind::Model
}

/// Every kind renders at least one template.
pub proof fn lemma_catalog_nonempty(kind: Kind)
    ensures
        1 <= catalog(kind).len() <= 4,
{
}

impl Template {
    /// The file name under which the template's body is kept.
    pub open spec fn spec_file_name(self) -> Seq<char> {
        match self {
            Template::Model => "model.t"@,
            Template::ModelTest => "model_test.t"@,
            Template::Controller => "controller.t"@,
            Template::RequestTest => "request_test.t"@,
            Template::Task => "task.t"@,
            Template::Worker => "worker.t"@,
            Template::Mailer => "mailer.t"@,
            Template::MailerSub => "mailer_sub.t"@,
            Template::MailerText => "mailer_text.t"@,
            Template::MailerHtml => "mailer_html.t"@,
        }
    }

    /// The file name under which the template's body is kept.
    pub fn file_name(self) -> (name: &'static str)
        ensures
            name@ == self.spec_file_name(),
    {
        match self {
            Template::Model => "model.t",
            Template::ModelTest => "model_test.t",
            Template::Controller => "controller.t",
            Template::RequestTest => "request_test.t",
            Template::Task => "task.t",
            Template::Worker => "worker.t",
            Template::Mailer => "mailer.t",
            Template::MailerSub => "mailer_sub.t",
            Template::MailerText => "mailer_text.t",
            Template::MailerHtml => "mailer_html.t",
        }
    }
}

/// The templates of `kind`, in rendering order.
pub fn templates_for(kind: Kind) -> (templates: Vec<Template>)
    ensures
        templates@ == catalog(kind),
{
    match kind {
        Kind::Model => vec![Template::Model, Template::ModelTest],
        Kind::Controller => vec![Template::Controller, Template::RequestTest],
        Kind::Task => vec![Template::Task],
        Kind::Worker => vec![Template::Worker],
        Kind::Mailer => vec![
            Template::Mailer,
            Template::MailerSub,
            Template::MailerText,
            Template::MailerHtml,
        ],
    }
}

/// Whether the messages of a kind's renders are shown once they are all done.
pub fn shows_report(kind: Kind) -> (shown: bool)
    ensures
        shown == reports(kind),
{
    match kind {
        Kind::Model => true,
        _ => false,
    }
}

} // verus!
