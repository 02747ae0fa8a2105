//! Where the font for the game's text is found.

use vstd::prelude::*;
use vstd::string::StringExecFns;

verus! {

/// The font file under the project's own directory `project_root`, where
/// that is known; else the system-wide font that the Debian package
/// `fonts-roboto` installs.
pub fn get_font_path(project_root: Option<&str>) -> (r: String)
    ensures
        r@ == (match project_root {
            Some(root) => root@ + "/res/Roboto-Regular.ttf"@,
            None => "/usr/share/fonts/truetype/roboto/unhinted/RobotoTTF/Roboto-Regular.ttf"@,
        }),
{
    match project_root {
        Some(root) => {
            let mut path = String::from_str(root);
            path.append("/res/Roboto-Regular.ttf");
            path
        },
        None => String::from_str(
            "/usr/share/fonts/truetype/roboto/unhinted/RobotoTTF/Roboto-Regular.ttf",
        ),
    }
}

} // verus!
