//! Startup entries, kept as desktop entry files in the autostart directory.

use vstd::prelude::*;

verus! {

/// A program that starts with the session.
#[derive(Debug)]
pub struct StartupItem {
    pub name: String,
    pub command: String,
    pub enabled: bool,
    pub delay: Option<u32>,
}

/// The file name of the desktop entry for `name`.
pub open spec fn desktop_file_name_of(name: Seq<char>) -> Seq<char> {
    name + ".desktop"@
}

/// The text of the desktop entry that starts `name`.
pub open spec fn desktop_entry_of(name: Seq<char>) -> Seq<char> {
    "[Desktop Entry]\nType=Application\nName="@ + name + "\nExec="@ + name + "\nHidden=false\n"@
}

/// The file name of the desktop entry for `name`.
pub fn desktop_file_name(name: &str) -> (r: String)
    ensures
        r@ == desktop_file_name_of(name@),
{
    let mut s = String::from_str(name);
    s.append(".desktop");
    s
}

/// The text of the desktop entry that starts `name`.
pub fn desktop_entry_text(name: &str) -> (r: String)
    ensures
        r@ == desktop_entry_of(name@),
{
    let mut s = String::from_str("[Desktop Entry]\nType=Application\nName=");
    s.append(name);
    s.append("\nExec=");
    s.append(name);
    s.append("\nHidden=false\n");
    s
}

/// An entry of the autostart directory is a startup item when its extension
/// is `desktop`.
pub fn startup_item_from_entry(file_name: &str, extension: Option<&str>) -> (r: Option<StartupItem>)
    ensures
        r is Some <==> (extension matches Some(e) && e@ == "desktop"@),
        r matches Some(item) ==> item.name@ == file_name@ && item.command@.len() == 0
            && item.enabled && item.delay is None,
{
    match extension {
        Some(e) => {
            if String::from_str(e) == String::from_str("desktop") {
                Some(
                    StartupItem {
                        name: String::from_str(file_name),
                        command: String::new(),
                        enabled: true,
                        delay: None,
                    },
                )
            } else {
                None
            }
        },
        None => None,
    }
}

} // verus!
