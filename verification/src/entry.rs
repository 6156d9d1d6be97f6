//! The entry points that the host calls, in the order in which it calls them.

use crate::bridge::{accepts_all, Bridge, Lifecycle};
use crate::marshal::{decoded, encode, encoded, lemma_wide_text_nul_free};
use crate::opcode::VlType;
use vstd::prelude::*;
use vstd::string::StringExecFns;
use vstd::utf8::encode_utf8;

verus! {

/// The name under which the plugin shows in the host's menu.
pub const PLUGIN_NAME: &'static str = "Test plugin written in Rust";

/// Who wrote the plugin.
pub const PLUGIN_AUTHOR: &'static str = "YourName, rust@example.com";

/// The line that a load adds at the end of the project text.
pub const PROJECT_MARKER: &'static str = "\r\n' This text was added by Rust Plugin!";

/// What a load did that ran against the host callback `engine`, and what it
/// gave back for display. The load read the project text, wrote it back with
/// the marker added, asked for a refresh and read the active text. Every
/// request had zero for both parameters.
pub open spec fn load_ran<E: Fn(i32, i32, i32, Option<Vec<u8>>) -> Option<Vec<u16>>>(
    engine: E,
    display: Seq<char>,
) -> bool {
    exists|
        project: Option<Vec<u16>>,
        amended: Vec<u8>,
        stored: Option<Vec<u16>>,
        refreshed: Option<Vec<u16>>,
        active: Option<Vec<u16>>,
    |
        {
            &&& #[trigger] call_ensures(
                engine,
                (VlType::GetVBProject.code(), 0i32, 0i32, None::<Vec<u8>>),
                project,
            )
            &&& amended@ == encoded(decoded(project) + PROJECT_MARKER@)
            &&& #[trigger] call_ensures(
                engine,
                (VlType::SetVBProject.code(), 0i32, 0i32, Some(amended)),
                stored,
            )
            &&& #[trigger] call_ensures(
                engine,
                (VlType::UpdateAll.code(), 0i32, 0i32, None::<Vec<u8>>),
                refreshed,
            )
            &&& #[trigger] call_ensures(
                engine,
                (VlType::GetActiveText.code(), 0i32, 0i32, None::<Vec<u8>>),
                active,
            )
            &&& display == decoded(active)
        }
}

/// The project text that a load writes back always reaches the host in full:
/// neither what was read from the host nor the marker holds a NUL, so the
/// payload is never the empty one.
pub proof fn lemma_amended_in_full(project: Option<Vec<u16>>)
    ensures
        !(decoded(project) + PROJECT_MARKER@).contains('\0'),
        encoded(decoded(project) + PROJECT_MARKER@) == encode_utf8(
            decoded(project) + PROJECT_MARKER@,
        ).push(0u8),
{
    let read = decoded(project);
    let amended = read + PROJECT_MARKER@;
    reveal_strlit("\r\n' This text was added by Rust Plugin!");
    assert(!PROJECT_MARKER@.contains('\0'));
    if let Some(units) = project {
        lemma_wide_text_nul_free(units@);
    }
    if amended.contains('\0') {
        let i = choose|i: int| 0 <= i < amended.len() && amended[i] == '\0';
        if i < read.len() {
            assert(read[i] == '\0');
        } else {
            assert(PROJECT_MARKER@[i - read.len()] == '\0');
        }
    }
}

/// Gives the plugin's name as narrow text with its closing zero byte.
///
/// No callback is needed, and none is touched.
#[allow(non_snake_case)]
pub fn VBDecompilerPluginName() -> (name: Vec<u8>)
    ensures
        name@ == encode_utf8(PLUGIN_NAME@).push(0u8),
        name@ == encoded(PLUGIN_NAME@),
{
    proof {
        reveal_strlit("Test plugin written in Rust");
        assert(!PLUGIN_NAME@.contains('\0'));
    }
    encode(PLUGIN_NAME)
}

/// Gives the author's name and address as narrow text with its closing zero byte.
///
/// No callback is needed, and none is touched.
#[allow(non_snake_case)]
pub fn VBDecompilerPluginAuthor() -> (author: Vec<u8>)
    ensures
        author@ == encode_utf8(PLUGIN_AUTHOR@).push(0u8),
        author@ == encoded(PLUGIN_AUTHOR@),
{
    proof {
        reveal_strlit("YourName, rust@example.com");
        assert(!PLUGIN_AUTHOR@.contains('\0'));
    }
    encode(PLUGIN_AUTHOR)
}

/// Runs the work of a load with the callback that the host handed over.
///
/// Without a callback the load is given up: nothing is called, nothing changes
/// and there is nothing to show. With one, the callback is bound, the project
/// text is read, the marker is added, the text is written back, the host is
/// asked to refresh, and the active text is read. That text is handed back for
/// the plugin's window, and the bridge is left running until `unload`.
#[allow(non_snake_case)]
pub fn VBDecompilerPluginLoad<E: Fn(i32, i32, i32, Option<Vec<u8>>) -> Option<Vec<u16>>>(
    bridge: &mut Bridge<E>,
    engine: Option<E>,
) -> (display: Option<String>)
    requires
        engine matches Some(f) ==> accepts_all(f),
    ensures
        engine is None ==> display is None && *final(bridge) == *old(bridge),
        engine matches Some(f) ==> {
            &&& display matches Some(text) && load_ran(f, text@)
            &&& final(bridge).engine() == engine
            &&& final(bridge).state() == Lifecycle::Running
        },
{
    if !bridge.init(engine) {
        return None;
    }
    let ghost f = engine->0;

    let mut vb_project = bridge.get_value(VlType::GetVBProject, 0, 0);
    let ghost project = choose|reply: Option<Vec<u16>>|
        #[trigger] bridge.answers(VlType::GetVBProject, 0, 0, None, reply) && vb_project@
            == decoded(reply);
    vb_project.append(PROJECT_MARKER);
    bridge.set_value(VlType::SetVBProject, vb_project.as_str(), 0, 0);
    let ghost (amended, stored) = choose|payload: Vec<u8>, reply: Option<Vec<u16>>|
        payload@ == encoded(vb_project@) && #[trigger] bridge.answers(
            VlType::SetVBProject,
            0,
            0,
            Some(payload),
            reply,
        );
    let refreshed = bridge.invoke(VlType::UpdateAll, 0, 0, None);

    let active_text = bridge.get_value(VlType::GetActiveText, 0, 0);
    let ghost active = choose|reply: Option<Vec<u16>>|
        #[trigger] bridge.answers(VlType::GetActiveText, 0, 0, None, reply) && active_text@
            == decoded(reply);

    proof {
        assert(call_ensures(f, (VlType::GetVBProject.code(), 0i32, 0i32, None::<Vec<u8>>), project));
        assert(call_ensures(f, (VlType::SetVBProject.code(), 0i32, 0i32, Some(amended)), stored));
        assert(call_ensures(f, (VlType::UpdateAll.code(), 0i32, 0i32, None::<Vec<u8>>), refreshed));
        assert(call_ensures(f, (VlType::GetActiveText.code(), 0i32, 0i32, None::<Vec<u8>>), active));
    }
    bridge.enter_running();
    Some(active_text)
}

} // verus!
