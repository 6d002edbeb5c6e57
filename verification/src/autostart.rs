//! The autostart registration's compute part: the launch-agent property list
//! written for the installed binary. Writing the file and loading the agent
//! are the surrounding process's work.

use vstd::prelude::*;

verus! {

/// The property-list text that registers the binary at `binary_path` to run
/// at login and stay alive: exactly the fixed head, the path, and the fixed
/// tail.
pub fn launch_agent_plist(binary_path: &str) -> (r: String)
    ensures
        r@ == r#"<?xml version="1.0" encoding="UTF-8"?>
<!DOCTYPE plist PUBLIC "-//Apple//DTD PLIST 1.0//EN" "http://www.apple.com/DTDs/PropertyList-1.0.dtd">
<plist version="1.0">
<dict>
    <key>Label</key>
    <string>com.mac-clip.daemon</string>
    <key>ProgramArguments</key>
    <array>
        <string>"#@ + binary_path@
            + r#"</string>
    </array>
    <key>RunAtLoad</key>
    <true/>
    <key>KeepAlive</key>
    <true/>
    <key>StandardOutPath</key>
    <string>/tmp/mac-clip.stdout.log</string>
    <key>StandardErrorPath</key>
    <string>/tmp/mac-clip.stderr.log</string>
</dict>
</plist>"#@,
{
    let head = String::from_str(
        r#"<?xml version="1.0" encoding="UTF-8"?>
<!DOCTYPE plist PUBLIC "-//Apple//DTD PLIST 1.0//EN" "http://www.apple.com/DTDs/PropertyList-1.0.dtd">
<plist version="1.0">
<dict>
    <key>Label</key>
    <string>com.mac-clip.daemon</string>
    <key>ProgramArguments</key>
    <array>
        <string>"#,
    );
    head.concat(binary_path).concat(
        r#"</string>
    </array>
    <key>RunAtLoad</key>
    <true/>
    <key>KeepAlive</key>
    <true/>
    <key>StandardOutPath</key>
    <string>/tmp/mac-clip.stdout.log</string>
    <key>StandardErrorPath</key>
    <string>/tmp/mac-clip.stderr.log</string>
</dict>
</plist>"#,
    )
}

} // verus!
