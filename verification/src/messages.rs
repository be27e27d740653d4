//! What the core tells its consumers.

use crate::ids::InstanceID;
use crate::schema::loader::Loader;
use vstd::prelude::*;

verus! {

/// Whether the game of an instance is running.
#[derive(Debug, Clone, Copy, PartialEq, Eq, Structural)]
pub enum InstanceStatus {
    NotRunning,
    Running,
}

/// A notification to the consumers of the core.
#[derive(Debug)]
pub enum MessageToFrontend {
    /// An instance came into being.
    InstanceAdded { id: InstanceID, name: String, version: String, loader: Loader },
    /// An instance changed its name, version, loader or status.
    InstanceModified {
        id: InstanceID,
        name: String,
        version: String,
        loader: Loader,
        status: InstanceStatus,
    },
    /// An instance is gone.
    InstanceRemoved { id: InstanceID },
    /// Something the user should read.
    Info { text: String },
    /// Something that went wrong and that the user should read.
    Error { text: String },
}

/// What a notification is to the contracts.
pub enum MessageView {
    InstanceAdded { id: InstanceID, name: Seq<char>, version: Seq<char>, loader: Loader },
    InstanceModified {
        id: InstanceID,
        name: Seq<char>,
        version: Seq<char>,
        loader: Loader,
        status: InstanceStatus,
    },
    InstanceRemoved { id: InstanceID },
    Info { text: Seq<char> },
    Error { text: Seq<char> },
}

impl View for MessageToFrontend {
    type V = MessageView;

    open spec fn view(&self) -> MessageView {
        match *self {
            MessageToFrontend::InstanceAdded { id, name, version, loader } => {
                MessageView::InstanceAdded { id, name: name@, version: version@, loader }
            },
            MessageToFrontend::InstanceModified { id, name, version, loader, status } => {
                MessageView::InstanceModified { id, name: name@, version: version@, loader, status }
            },
            MessageToFrontend::InstanceRemoved { id } => MessageView::InstanceRemoved { id },
            MessageToFrontend::Info { text } => MessageView::Info { text: text@ },
            MessageToFrontend::Error { text } => MessageView::Error { text: text@ },
        }
    }
}

} // verus!
