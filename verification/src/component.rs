//! The request: which component to generate, and under which name.

use crate::catalog::Kind;
use vstd::prelude::*;

verus! {

/// A request to generate one component. Exactly one kind is chosen.
#[derive(Debug, PartialEq, Eq)]
pub enum Component {
    Model {
        /// Name of the thing to generate
        name: String,
        /// Model fields, as pairs of a field name and a type name. They are
        /// accepted and carried along, and reach no template.
        fields: Vec<(String, String)>,
    },
    Controller {
        /// Name of the thing to generate
        name: String,
    },
    Task {
        /// Name of the thing to generate
        name: String,
    },
    Worker {
        /// Name of the thing to generate
        name: String,
    },
    Mailer {
        /// Name of the thing to generate
        name: String,
    },
}

/// What a [`Component`] says, as mathematical values.
pub struct Request {
    pub kind: Kind,
    pub name: Seq<char>,
    pub fields: Seq<(Seq<char>, Seq<char>)>,
}

impl View for Component {
    type V = Request;

    open spec fn view(&self) -> Request {
        match self {
            Component::Model { name, fields } => Request {
                kind: Kind::Model,
                name: name@,
                fields: fields.deep_view(),
            },
            Component::Controller { name } => Request {
                kind: Kind::Controller,
                name: name@,
                fields: Seq::empty(),
            },
            Component::Task { name } => Request { kind: Kind::Task, name: name@, fields: Seq::empty() },
            Component::Worker { name } => Request {
                kind: Kind::Worker,
                name: name@,
                fields: Seq::empty(),
            },
            Component::Mailer { name } => Request {
                kind: Kind::Mailer,
                name: name@,
                fields: Seq::empty(),
            },
        }
    }
}

impl Component {
    /// The kind of component that is asked for.
    pub fn kind(&self) -> (kind: Kind)
        ensures
            kind == self@.kind,
    {
        match self {
            Component::Model { .. } => Kind::Model,
            Component::Controller { .. } => Kind::Controller,
            Component::Task { .. } => Kind::Task,
            Component::Worker { .. } => Kind::Worker,
            Component::Mailer { .. } => Kind::Mailer,
        }
    }

    /// The name under which the component is generated.
    pub fn name(&self) -> (name: &str)
        ensures
            name@ == self@.name,
    {
        match self {
            Component::Model { name, .. } => name.as_str(),
            Component::Controller { name } => name.as_str(),
            Component::Task { name } => name.as_str(),
            Component::Worker { name } => name.as_str(),
            Component::Mailer { name } => name.as_str(),
        }
    }
}

} // verus!
