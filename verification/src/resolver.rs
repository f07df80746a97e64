//! Deciding which UI executable a call uses, from the outcomes of the two
//! probes: a co-located file next to the server executable, then a globally
//! resolvable command. The probes themselves are I/O and run outside the
//! library; this function is the ordered fallback over their results.

use vstd::prelude::*;

use crate::dispatch::{ErrorKind, ToolError};

verus! {

/// The fixed name of the UI command, probed globally when no co-located
/// executable is found.
pub open spec fn ui_command_name() -> Seq<char> {
    "等一下"@
}

/// The guidance reported when no UI executable can be located.
pub open spec fn resolver_guidance() -> Seq<char> {
    "找不到等一下 UI 命令。请确保：\n1. 已编译项目：cargo build --release\n2. 或已全局安装：./install.sh\n3. 或等一下命令在同目录下"@
}

/// Picks the UI executable from the probe outcomes, in order: the co-located
/// file when it exists and is executable, then the global command when
/// invoking it with a version flag succeeded. When both probes failed the
/// call is rejected with `BinaryNotFound` and build/install guidance; that
/// outcome is terminal for the call, and this function neither panics nor
/// blocks.
pub fn resolve_ui_command(
    colocated: Option<&String>,
    colocated_executable: bool,
    global_available: bool,
) -> (r: Result<String, ToolError>)
    ensures
        match colocated {
            Some(path) => if colocated_executable {
                r matches Ok(p) && p@ == path@
            } else if global_available {
                r matches Ok(p) && p@ == ui_command_name()
            } else {
                r matches Err(e) && e.kind == ErrorKind::BinaryNotFound && e.message@
                    == resolver_guidance()
            },
            None => if global_available {
                r matches Ok(p) && p@ == ui_command_name()
            } else {
                r matches Err(e) && e.kind == ErrorKind::BinaryNotFound && e.message@
                    == resolver_guidance()
            },
        },
{
    match colocated {
        Some(path) if colocated_executable => Ok(path.clone()),
        _ => {
            if global_available {
                Ok(String::from_str("等一下"))
            } else {
                Err(
                    ToolError {
                        kind: ErrorKind::BinaryNotFound,
                        message: String::from_str(
                            "找不到等一下 UI 命令。请确保：\n1. 已编译项目：cargo build --release\n2. 或已全局安装：./install.sh\n3. 或等一下命令在同目录下",
                        ),
                    },
                )
            }
        },
    }
}

} // verus!
