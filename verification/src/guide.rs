//! The usage guide shown once the server is up: a fixed list of lines,
//! stated exactly so that what the operator reads is what the library
//! says.

use vstd::prelude::*;
use vstd::string::StringExecFns;

verus! {

/// The lines of the usage guide, in print order.
pub open spec fn spec_usage_guide_lines() -> Seq<Seq<char>> {
    seq![
        "WebPlay Usage Guide"@,
        ""@,
        "HOW TO USE:"@,
        "   1. Copy a video URL from any source"@,
        "   2. Paste it into the input field on the web page"@,
        "   3. Click 'Play Video' to start streaming"@,
        ""@,
        "PLAYER CONTROLS:"@,
        "   - Spacebar: Play/Pause"@,
        "   - Arrow Keys: Seek +/- 5 seconds"@,
        "   - F: Toggle fullscreen"@,
        "   - M: Mute/Unmute"@,
        "   - Click video: Play/Pause"@,
        "   - Drag progress bar: Seek"@,
        "   - Picture-in-Picture button: PiP mode"@,
        ""@,
        "MOBILE SUPPORT:"@,
        "   - Touch to play/pause"@,
        "   - Swipe left/right to seek"@,
        "   - All controls work on mobile devices"@,
        ""@,
        "TROUBLESHOOTING:"@,
        "   - Make sure you're on the same WiFi network"@,
        "   - Check firewall settings if others can't connect"@,
        "   - Supported formats: MP4, WebM, OGV, HLS"@,
    ]
}

/// Builds the usage guide, line for line as the specification lists
/// it.
pub fn usage_guide_lines() -> (r: Vec<String>)
    ensures
        r.deep_view() == spec_usage_guide_lines(),
{
    let mut lines: Vec<String> = Vec::new();
    lines.push(String::from_str("WebPlay Usage Guide"));
    lines.push(String::from_str(""));
    lines.push(String::from_str("HOW TO USE:"));
    lines.push(String::from_str("   1. Copy a video URL from any source"));
    lines.push(String::from_str("   2. Paste it into the input field on the web page"));
    lines.push(String::from_str("   3. Click 'Play Video' to start streaming"));
    lines.push(String::from_str(""));
    lines.push(String::from_str("PLAYER CONTROLS:"));
    lines.push(String::from_str("   - Spacebar: Play/Pause"));
    lines.push(String::from_str("   - Arrow Keys: Seek +/- 5 seconds"));
    lines.push(String::from_str("   - F: Toggle fullscreen"));
    lines.push(String::from_str("   - M: Mute/Unmute"));
    lines.push(String::from_str("   - Click video: Play/Pause"));
    lines.push(String::from_str("   - Drag progress bar: Seek"));
    lines.push(String::from_str("   - Picture-in-Picture button: PiP mode"));
    lines.push(String::from_str(""));
    lines.push(String::from_str("MOBILE SUPPORT:"));
    lines.push(String::from_str("   - Touch to play/pause"));
    lines.push(String::from_str("   - Swipe left/right to seek"));
    lines.push(String::from_str("   - All controls work on mobile devices"));
    lines.push(String::from_str(""));
    lines.push(String::from_str("TROUBLESHOOTING:"));
    lines.push(String::from_str("   - Make sure you're on the same WiFi network"));
    lines.push(String::from_str("   - Check firewall settings if others can't connect"));
    lines.push(String::from_str("   - Supported formats: MP4, WebM, OGV, HLS"));
    proof {
        assert(lines.deep_view() =~= spec_usage_guide_lines());
    }
    lines
}

} // verus!
