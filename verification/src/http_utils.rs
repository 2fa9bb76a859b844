//! What the two interfaces of a node answer: a status and a body, still to
//! be written out.

use vstd::prelude::*;
use crate::cluster::{Cluster, ClusterView, PingView, Pong};
use crate::object::ObjectData;
use crate::types::{entries, Entries, Metadata};

verus! {

/// The status of an answer.
#[derive(Clone, Copy, Debug, PartialEq, Eq, Structural)]
pub enum Status {
    Success,
    Created,
    BadRequest,
    NotFound,
    ServiceUnavailable,
}

impl Status {
    /// The number of the status.
    pub open spec fn number(self) -> u16 {
        match self {
            Status::Success => 200,
            Status::Created => 201,
            Status::BadRequest => 400,
            Status::NotFound => 404,
            Status::ServiceUnavailable => 503,
        }
    }

    /// The number of the status.
    pub fn code(&self) -> (code: u16)
        ensures
            code == self.number(),
    {
        match self {
            Status::Success => 200,
            Status::Created => 201,
            Status::BadRequest => 400,
            Status::NotFound => 404,
            Status::ServiceUnavailable => 503,
        }
    }
}

/// What a node tells of itself and its cluster.
#[derive(Debug, PartialEq, Eq)]
pub struct ClusterInformation {
    pub cluster_name: String,
    pub node_name: String,
    pub noronha_version: String,
}

/// What the information on a cluster holds.
pub struct ClusterInformationView {
    pub cluster_name: Seq<char>,
    pub node_name: Seq<char>,
    pub noronha_version: Seq<char>,
}

impl View for ClusterInformation {
    type V = ClusterInformationView;

    open spec fn view(&self) -> ClusterInformationView {
        ClusterInformationView {
            cluster_name: self.cluster_name@,
            node_name: self.node_name@,
            noronha_version: self.noronha_version@,
        }
    }
}

/// The body of an answer.
#[derive(Debug)]
pub enum Body<'a> {
    /// No body.
    Empty,
    /// What the node tells of itself and its cluster.
    Information(ClusterInformation),
    /// All that the node knows of its cluster.
    State(&'a Cluster),
    /// The metadata of a namespace.
    Metadata(Metadata),
    /// The fields of a record.
    Data(ObjectData),
    /// The answer to a ping.
    Pong(Pong),
    /// The reason why the request was refused.
    Error(String),
}

/// What the body of an answer holds.
pub enum BodyView {
    Empty,
    Information(ClusterInformationView),
    State(ClusterView),
    Metadata(Entries),
    Data(Entries),
    Pong(PingView),
    Error(Seq<char>),
}

impl<'a> View for Body<'a> {
    type V = BodyView;

    open spec fn view(&self) -> BodyView {
        match *self {
            Body::Empty => BodyView::Empty,
            Body::Information(information) => BodyView::Information(information@),
            Body::State(cluster) => BodyView::State(cluster@),
            Body::Metadata(metadata) => BodyView::Metadata(entries(metadata)),
            Body::Data(data) => BodyView::Data(entries(data)),
            Body::Pong(pong) => BodyView::Pong(pong@),
            Body::Error(error) => BodyView::Error(error@),
        }
    }
}

/// An answer.
#[derive(Debug)]
pub struct Response<'a> {
    pub status: Status,
    pub body: Body<'a>,
}

/// What an answer holds.
pub struct ResponseView {
    pub status: Status,
    pub body: BodyView,
}

impl<'a> View for Response<'a> {
    type V = ResponseView;

    open spec fn view(&self) -> ResponseView {
        ResponseView { status: self.status, body: self.body@ }
    }
}

impl ResponseView {
    /// The answer without a body.
    pub open spec fn empty(status: Status) -> ResponseView {
        ResponseView { status, body: BodyView::Empty }
    }
}

} // verus!
