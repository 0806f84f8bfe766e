//! The plain state holders behind the simpler panels: the demo-file
//! header, the server-info message, the about/help page, the placeholder
//! views shown while no file is open or a file is being opened, and the
//! copyable label/value pair that several panels display.

use crate::messages::{FieldEntry, ProtobufMessageViewModel};
use vstd::prelude::*;

verus! {

/// The demo-file header, with its playback time already rendered as text.
pub struct HeaderInfo {
    pub demo_protocol: i32,
    pub network_protocol: i32,
    pub server_name: String,
    pub client_name: String,
    pub map_name: String,
    pub game_directory: String,
    pub playback_time_text: String,
    pub ticks: i32,
    pub frames: i32,
    pub sign_on_length: i32,
}

/// The header panel: it shows the header fields and holds nothing else.
pub struct HeaderToolViewModel {
    pub demo_header: HeaderInfo,
}

impl HeaderToolViewModel {
    pub fn new(demo_header: HeaderInfo) -> (vm: Self)
        ensures
            vm.demo_header == demo_header,
    {
        HeaderToolViewModel { demo_header }
    }
}

/// The server-info panel: the decoded server-info message's fields, when
/// the session carries one.
pub struct ServerInfoViewModel {
    pub vm_protobuf_message: Option<ProtobufMessageViewModel>,
}

impl ServerInfoViewModel {
    pub open spec fn wf(self) -> bool {
        self.vm_protobuf_message is Some ==> self.vm_protobuf_message->0.wf()
    }

    pub fn new(server_info: Option<Vec<FieldEntry>>) -> (vm: Self)
        ensures
            vm.wf(),
            vm.vm_protobuf_message is Some <==> server_info is Some,
            server_info is Some ==> vm.vm_protobuf_message->0.fields@ == server_info->0@,
    {
        match server_info {
            Option::Some(fields) => ServerInfoViewModel {
                vm_protobuf_message: Option::Some(ProtobufMessageViewModel::new(fields)),
            },
            Option::None => ServerInfoViewModel { vm_protobuf_message: Option::None },
        }
    }
}

/// The about/help panel: static text plus the changelog handed in at
/// session start.
pub struct AboutHelpViewModel {
    pub changelog_text: String,
}

impl AboutHelpViewModel {
    pub fn new(changelog_text: String) -> (vm: Self)
        ensures
            vm.changelog_text == changelog_text,
    {
        AboutHelpViewModel { changelog_text }
    }
}

/// The view shown while no file is open.
pub struct NoFilesOpenViewModel {}

/// The view shown while a file is being opened, naming the file.
pub struct OpeningFileViewModel {
    pub name: String,
}

impl OpeningFileViewModel {
    pub fn new(name: String) -> (vm: Self)
        ensures
            vm.name == name,
    {
        OpeningFileViewModel { name }
    }
}

/// A labelled value that the user can copy as text.
pub struct CopyableFieldWidget {
    pub label: String,
    pub value: String,
}

} // verus!
