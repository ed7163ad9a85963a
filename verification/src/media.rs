//! Camera device discovery: reading the MT8183 ISP's media device, its main
//! stream video node and its sensor out of the text that `v4l2-ctl
//! --list-devices` and `media-ctl -p` print.

use vstd::prelude::*;
use crate::text::{
    contains, contains_chars, is_ascii_digit, is_whitespace, lemma_find_occurs,
    lemma_leading_digits_are_digits, lemma_trim_edges, count_leading_digits, find, find_chars, leading_digits, lines,
    lines_view, slice_chars, split_lines, starts_with, starts_with_chars, str_chars,
    string_from_chars, trim, trim_chars,
};

verus! {

/// Discovered camera device paths.
#[derive(Debug, Clone)]
pub struct CameraDevices {
    /// Main video capture device (e.g., /dev/video3)
    pub video_device: String,
    /// Media controller device (e.g., /dev/media0)
    pub media_device: String,
    /// Sensor name for debugging
    pub sensor_name: String,
}

/// Scan of `v4l2-ctl --list-devices` output for the media node of the
/// `mtk-cam-p1` section. `in_section` says whether the lines read so far
/// left the scan inside that section.
///
/// A line naming `mtk-cam-p1` opens the section; inside it, the first
/// trimmed line that starts with `/dev/media` is the answer, and a
/// non-empty trimmed line that does not start with `/dev/` closes it.
pub open spec fn isp_scan(lines: Seq<Seq<char>>, in_section: bool) -> Option<Seq<char>>
    decreases lines.len(),
{
    if lines.len() == 0 {
        None
    } else {
        let line = lines[0];
        let rest = lines.drop_first();
        if contains(line, "mtk-cam-p1"@) {
            isp_scan(rest, true)
        } else if in_section {
            let t = trim(line);
            if starts_with(t, "/dev/media"@) {
                Some(t)
            } else if t.len() != 0 && !starts_with(t, "/dev/"@) {
                isp_scan(rest, false)
            } else {
                isp_scan(rest, true)
            }
        } else {
            isp_scan(rest, false)
        }
    }
}

/// The ISP media device named in `v4l2-ctl --list-devices` output.
pub open spec fn isp_media_device(output: Seq<char>) -> Option<Seq<char>> {
    isp_scan(lines(output), false)
}

/// The `/dev/videoN` path in `line`: its first `/dev/video` followed by
/// the ASCII digits after it.
pub open spec fn video_node_path(line: Seq<char>) -> Option<Seq<char>> {
    let prefix = "/dev/video"@;
    match find(line, prefix) {
        Some(start) => {
            let rest = line.skip(start);
            Some(rest.take((prefix.len() + leading_digits(rest.skip(prefix.len() as int))) as int))
        },
        None => None,
    }
}

/// Scan of `media-ctl -p` output for the device node of the "main stream"
/// entity. `found` says whether the scan is inside that entity's block.
///
/// A line naming both `entity` and `main stream` opens the block; inside
/// it, a `device node name` line gives the `/dev/videoN` path (or, without
/// one, closes the block), and a trimmed line starting with `- entity`
/// closes it.
pub open spec fn main_stream_scan(lines: Seq<Seq<char>>, found: bool) -> Option<Seq<char>>
    decreases lines.len(),
{
    if lines.len() == 0 {
        None
    } else {
        let line = lines[0];
        let rest = lines.drop_first();
        if contains(line, "entity"@) && contains(line, "main stream"@) {
            main_stream_scan(rest, true)
        } else if found && contains(line, "device node name"@) {
            match video_node_path(line) {
                Some(path) => Some(path),
                None => main_stream_scan(rest, false),
            }
        } else if found && starts_with(trim(line), "- entity"@) {
            main_stream_scan(rest, false)
        } else {
            main_stream_scan(rest, found)
        }
    }
}

/// The main stream video device named in `media-ctl -p` output.
pub open spec fn main_stream_device(output: Seq<char>) -> Option<Seq<char>> {
    main_stream_scan(lines(output), false)
}

/// The sensor entity named on `line`, if it is an `entity` line for an
/// `ov8856` or `ov02a10` sensor: the trimmed text between the first `:`
/// and the first `(`, when the colon comes first and that text is not
/// empty. (For `- entity 17: ov8856 2-0010 (1 pad, 1 link)`, that is
/// `ov8856 2-0010`.)
pub open spec fn sensor_in_line(line: Seq<char>) -> Option<Seq<char>> {
    if contains(line, "entity"@) && (contains(line, "ov8856"@) || contains(line, "ov02a10"@)) {
        match (find(line, seq![':']), find(line, seq!['('])) {
            (Some(colon), Some(paren)) => {
                if colon < paren {
                    let name = trim(line.subrange(colon + 1, paren));
                    if name.len() != 0 {
                        Some(name)
                    } else {
                        None
                    }
                } else {
                    None
                }
            },
            _ => None,
        }
    } else {
        None
    }
}

/// The sensor named on the first line of `lines` that names one.
pub open spec fn sensor_scan(lines: Seq<Seq<char>>) -> Option<Seq<char>>
    decreases lines.len(),
{
    if lines.len() == 0 {
        None
    } else {
        match sensor_in_line(lines[0]) {
            Some(name) => Some(name),
            None => sensor_scan(lines.drop_first()),
        }
    }
}

/// The camera sensor named in `media-ctl -p` output.
pub open spec fn sensor_name(output: Seq<char>) -> Option<Seq<char>> {
    sensor_scan(lines(output))
}

/// What the media-device scan finds starts with `/dev/media`.
proof fn lemma_isp_scan_shape(lines: Seq<Seq<char>>, in_section: bool)
    ensures
        isp_scan(lines, in_section) matches Some(path) ==> starts_with(path, "/dev/media"@),
    decreases lines.len(),
{
    if lines.len() > 0 {
        lemma_isp_scan_shape(lines.drop_first(), true);
        lemma_isp_scan_shape(lines.drop_first(), false);
    }
}

/// What the main-stream scan finds is a `/dev/video` path.
proof fn lemma_main_stream_scan_shape(lines: Seq<Seq<char>>, found: bool)
    ensures
        main_stream_scan(lines, found) matches Some(path) ==> is_video_node_path(path),
    decreases lines.len(),
{
    if lines.len() > 0 {
        lemma_main_stream_scan_shape(lines.drop_first(), true);
        lemma_main_stream_scan_shape(lines.drop_first(), false);
        lemma_video_node_path_shape(lines[0]);
    }
}

/// `p` is `/dev/video` followed by nothing but ASCII digits.
pub open spec fn is_video_node_path(p: Seq<char>) -> bool {
    &&& starts_with(p, "/dev/video"@)
    &&& forall|i: int| "/dev/video"@.len() <= i < p.len() ==> is_ascii_digit(#[trigger] p[i])
}

/// The path cut out of a `device node name` line is a `/dev/video` path.
proof fn lemma_video_node_path_shape(line: Seq<char>)
    ensures
        video_node_path(line) matches Some(path) ==> is_video_node_path(path),
{
    let prefix = "/dev/video"@;
    if let Some(start) = find(line, prefix) {
        lemma_find_occurs(line, prefix, 0);
        let rest = line.skip(start);
        let tail = rest.skip(prefix.len() as int);
        lemma_leading_digits_are_digits(tail);
        let path = rest.take((prefix.len() + leading_digits(tail)) as int);
        assert(path.subrange(0, prefix.len() as int) =~= line.subrange(start, start + prefix.len()));
        assert forall|i: int| prefix.len() <= i < path.len() implies is_ascii_digit(#[trigger] path[i]) by {
            assert(path[i] == tail[i - prefix.len()]);
        }
    }
}

/// What the sensor scan finds is non-empty and neither starts nor ends
/// with whitespace.
proof fn lemma_sensor_scan_shape(lines: Seq<Seq<char>>)
    ensures
        sensor_scan(lines) matches Some(name) ==> name.len() > 0 && !is_whitespace(name[0])
            && !is_whitespace(name.last()),
    decreases lines.len(),
{
    if lines.len() > 0 {
        lemma_sensor_scan_shape(lines.drop_first());
        let line = lines[0];
        if let (Some(colon), Some(paren)) = (find(line, seq![':']), find(line, seq!['('])) {
            lemma_trim_edges(line.subrange(colon + 1, paren));
        }
    }
}

/// Discovery only ever reports well-formed names: the media device starts
/// with `/dev/media`, the video device is `/dev/video` followed by digits,
/// and the sensor name is non-empty with no surrounding whitespace.
pub proof fn lemma_discovered_names_are_well_formed(list_devices: Seq<char>, topology: Seq<char>)
    ensures
        isp_media_device(list_devices) matches Some(path) ==> starts_with(path, "/dev/media"@),
        main_stream_device(topology) matches Some(path) ==> is_video_node_path(path),
        sensor_name(topology) matches Some(name) ==> name.len() > 0 && !is_whitespace(name[0])
            && !is_whitespace(name.last()),
{
    lemma_isp_scan_shape(lines(list_devices), false);
    lemma_main_stream_scan_shape(lines(topology), false);
    lemma_sensor_scan_shape(lines(topology));
}

/// Line `i` of `lines` read from a list of lines, and the rest after it.
proof fn lemma_lines_step(v: Seq<Vec<char>>, i: int)
    requires
        0 <= i < v.len(),
    ensures
        lines_view(v).skip(i)[0] == v[i]@,
        lines_view(v).skip(i).drop_first() == lines_view(v).skip(i + 1),
        lines_view(v).skip(i).len() > 0,
{
    assert(lines_view(v).skip(i).drop_first() =~= lines_view(v).skip(i + 1));
}

/// Find the ISP (`mtk-cam-p1`) media device in the output of
/// `v4l2-ctl --list-devices`.
pub fn parse_isp_media_device(output: &str) -> (r: Option<String>)
    ensures
        r matches Some(path) ==> isp_media_device(output@) == Some(path@),
        r is None ==> isp_media_device(output@) is None,
{
    let text = str_chars(output);
    let all = split_lines(text.as_slice());
    let section = str_chars("mtk-cam-p1");
    let media = str_chars("/dev/media");
    let dev = str_chars("/dev/");
    let ghost ls = lines_view(all@);
    assert(ls.skip(0) =~= ls);
    let mut in_section = false;
    let mut i: usize = 0;
    while i < all.len()
        invariant
            ls == lines_view(all@),
            ls == lines(output@),
            section@ == "mtk-cam-p1"@,
            media@ == "/dev/media"@,
            dev@ == "/dev/"@,
            0 <= i <= all@.len(),
            isp_media_device(output@) == isp_scan(ls.skip(i as int), in_section),
        decreases all@.len() - i,
    {
        proof {
            lemma_lines_step(all@, i as int);
        }
        let line = all[i].as_slice();
        if contains_chars(line, section.as_slice()) {
            in_section = true;
        } else if in_section {
            let t = trim_chars(line);
            if starts_with_chars(t.as_slice(), media.as_slice()) {
                return Some(string_from_chars(t.as_slice()));
            }
            if t.len() != 0 && !starts_with_chars(t.as_slice(), dev.as_slice()) {
                in_section = false;
            }
        }
        i = i + 1;
    }
    None
}

/// Find the main stream video device in the output of `media-ctl -p`.
pub fn parse_main_stream_device(output: &str) -> (r: Option<String>)
    ensures
        r matches Some(path) ==> main_stream_device(output@) == Some(path@),
        r is None ==> main_stream_device(output@) is None,
{
    let text = str_chars(output);
    let all = split_lines(text.as_slice());
    let entity = str_chars("entity");
    let main_stream = str_chars("main stream");
    let node_name = str_chars("device node name");
    let video = str_chars("/dev/video");
    let entity_item = str_chars("- entity");
    let ghost ls = lines_view(all@);
    assert(ls.skip(0) =~= ls);
    let mut found = false;
    let mut i: usize = 0;
    while i < all.len()
        invariant
            ls == lines_view(all@),
            ls == lines(output@),
            entity@ == "entity"@,
            main_stream@ == "main stream"@,
            node_name@ == "device node name"@,
            video@ == "/dev/video"@,
            entity_item@ == "- entity"@,
            0 <= i <= all@.len(),
            main_stream_device(output@) == main_stream_scan(ls.skip(i as int), found),
        decreases all@.len() - i,
    {
        proof {
            lemma_lines_step(all@, i as int);
        }
        let line = all[i].as_slice();
        if contains_chars(line, entity.as_slice()) && contains_chars(line, main_stream.as_slice()) {
            found = true;
        } else if found && contains_chars(line, node_name.as_slice()) {
            if let Some(start) = find_chars(line, video.as_slice()) {
                let line_len = line.len();
                assert(start + video@.len() <= line_len);
                let digits = count_leading_digits(line, start + video.len());
                let path = slice_chars(line, start, start + video.len() + digits);
                proof {
                    let rest = line@.skip(start as int);
                    assert(rest.skip(video@.len() as int) =~= line@.skip(start + video@.len()));
                    assert(path@ =~= rest.take(video@.len() + digits));
                }
                return Some(string_from_chars(path.as_slice()));
            }
            found = false;
        } else if found {
            let t = trim_chars(line);
            if starts_with_chars(t.as_slice(), entity_item.as_slice()) {
                found = false;
            }
        }
        i = i + 1;
    }
    None
}

/// Find the active sensor (`ov8856` or `ov02a10`) in the output of
/// `media-ctl -p`.
pub fn parse_sensor_name(output: &str) -> (r: Option<String>)
    ensures
        r matches Some(name) ==> sensor_name(output@) == Some(name@),
        r is None ==> sensor_name(output@) is None,
{
    let text = str_chars(output);
    let all = split_lines(text.as_slice());
    let entity = str_chars("entity");
    let rear = str_chars("ov8856");
    let front = str_chars("ov02a10");
    let colon_pat: Vec<char> = vec![':'];
    let paren_pat: Vec<char> = vec!['('];
    let ghost ls = lines_view(all@);
    assert(ls.skip(0) =~= ls);
    let mut i: usize = 0;
    while i < all.len()
        invariant
            ls == lines_view(all@),
            ls == lines(output@),
            entity@ == "entity"@,
            rear@ == "ov8856"@,
            front@ == "ov02a10"@,
            colon_pat@ == seq![':'],
            paren_pat@ == seq!['('],
            0 <= i <= all@.len(),
            sensor_name(output@) == sensor_scan(ls.skip(i as int)),
        decreases all@.len() - i,
    {
        proof {
            lemma_lines_step(all@, i as int);
        }
        let line = all[i].as_slice();
        if contains_chars(line, entity.as_slice()) && (contains_chars(line, rear.as_slice())
            || contains_chars(line, front.as_slice())) {
            if let Some(colon) = find_chars(line, colon_pat.as_slice()) {
                if let Some(paren) = find_chars(line, paren_pat.as_slice()) {
                    if colon < paren {
                        let inner = slice_chars(line, colon + 1, paren);
                        let name = trim_chars(inner.as_slice());
                        if name.len() != 0 {
                            return Some(string_from_chars(name.as_slice()));
                        }
                    }
                }
            }
        }
        i = i + 1;
    }
    None
}

} // verus!

verus! {

/// Inside the ISP section, each kind of line does what the section's
/// listing needs, whatever follows it: a line naming `mtk-cam-p1` (re)opens
/// the section; otherwise, with `t` the line trimmed, a `/dev/media` line is
/// the answer, a blank line or any other `/dev/` node (video nodes,
/// sub-devices, ...) keeps the section open, and any other line (the next
/// device's heading) closes it.
pub proof fn lemma_isp_section_lines(line: Seq<char>, rest: Seq<Seq<char>>)
    ensures
        contains(line, "mtk-cam-p1"@) ==> isp_scan(seq![line] + rest, true) == isp_scan(rest, true),
        !contains(line, "mtk-cam-p1"@) && starts_with(trim(line), "/dev/media"@) ==> isp_scan(
            seq![line] + rest,
            true,
        ) == Some(trim(line)),
        !contains(line, "mtk-cam-p1"@) && starts_with(trim(line), "/dev/"@) && !starts_with(
            trim(line),
            "/dev/media"@,
        ) ==> isp_scan(seq![line] + rest, true) == isp_scan(rest, true),
        !contains(line, "mtk-cam-p1"@) && trim(line).len() == 0 ==> isp_scan(
            seq![line] + rest,
            true,
        ) == isp_scan(rest, true),
        !contains(line, "mtk-cam-p1"@) && trim(line).len() != 0 && !starts_with(
            trim(line),
            "/dev/"@,
        ) ==> isp_scan(seq![line] + rest, true) == isp_scan(rest, false),
{
    lemma_prepend_line(line, rest);
    let t = trim(line);
    reveal_strlit("/dev/media");
    reveal_strlit("/dev/");
    if starts_with(t, "/dev/media"@) {
        assert(t.subrange(0, 5) =~= t.subrange(0, 10).subrange(0, 5));
        assert(t.subrange(0, 5) =~= "/dev/"@);
    }
}

/// Outside the ISP section nothing is reported: only a line naming
/// `mtk-cam-p1` opens the section, every other line is skipped.
pub proof fn lemma_isp_outside_section(line: Seq<char>, rest: Seq<Seq<char>>)
    ensures
        contains(line, "mtk-cam-p1"@) ==> isp_scan(seq![line] + rest, false) == isp_scan(
            rest,
            true,
        ),
        !contains(line, "mtk-cam-p1"@) ==> isp_scan(seq![line] + rest, false) == isp_scan(
            rest,
            false,
        ),
{
    lemma_prepend_line(line, rest);
}

/// `line` followed by `rest` starts with `line`, and `rest` is what
/// follows it.
proof fn lemma_prepend_line(line: Seq<char>, rest: Seq<Seq<char>>)
    ensures
        (seq![line] + rest).len() > 0,
        (seq![line] + rest)[0] == line,
        (seq![line] + rest).drop_first() == rest,
{
    assert((seq![line] + rest).drop_first() =~= rest);
}

/// The sensor reported is the one on the first line that names a sensor:
/// when line `i` names sensor `n` and no earlier line names one, the scan
/// gives `n`; and when no line names a sensor, it gives nothing.
pub proof fn lemma_sensor_first_match(lines: Seq<Seq<char>>, i: int, n: Seq<char>)
    requires
        0 <= i < lines.len(),
        sensor_in_line(lines[i]) == Some(n),
        forall|j: int| 0 <= j < i ==> #[trigger] sensor_in_line(lines[j]) is None,
    ensures
        sensor_scan(lines) == Some(n),
    decreases i,
{
    if i > 0 {
        assert(sensor_in_line(lines[0]) is None);
        let rest = lines.drop_first();
        assert forall|j: int| 0 <= j < i - 1 implies #[trigger] sensor_in_line(rest[j]) is None by {
            assert(rest[j] == lines[j + 1]);
        }
        assert(rest[i - 1] == lines[i]);
        lemma_sensor_first_match(rest, i - 1, n);
    }
}

/// When no line names a sensor, the scan reports none; and whatever it
/// reports is named on some line, with no earlier line naming one.
pub proof fn lemma_sensor_scan_found(lines: Seq<Seq<char>>)
    ensures
        (forall|j: int| 0 <= j < lines.len() ==> #[trigger] sensor_in_line(lines[j]) is None)
            ==> sensor_scan(lines) is None,
        sensor_scan(lines) matches Some(n) ==> exists|i: int|
            0 <= i < lines.len() && sensor_in_line(lines[i]) == Some(n) && forall|j: int|
                0 <= j < i ==> #[trigger] sensor_in_line(lines[j]) is None,
    decreases lines.len(),
{
    if lines.len() > 0 {
        let rest = lines.drop_first();
        lemma_sensor_scan_found(rest);
        if forall|j: int| 0 <= j < lines.len() ==> #[trigger] sensor_in_line(lines[j]) is None {
            assert(sensor_in_line(lines[0]) is None);
            assert forall|j: int| 0 <= j < rest.len() implies #[trigger] sensor_in_line(
                rest[j],
            ) is None by {
                assert(rest[j] == lines[j + 1]);
            }
        }
        if let Some(n) = sensor_scan(lines) {
            if sensor_in_line(lines[0]) is None {
                let k = choose|k: int|
                    0 <= k < rest.len() && sensor_in_line(rest[k]) == Some(n) && forall|j: int|
                        0 <= j < k ==> #[trigger] sensor_in_line(rest[j]) is None;
                assert(lines[k + 1] == rest[k]);
                assert forall|j: int| 0 <= j < k + 1 implies #[trigger] sensor_in_line(
                    lines[j],
                ) is None by {
                    if j > 0 {
                        assert(lines[j] == rest[j - 1]);
                    }
                }
            } else {
                assert(forall|j: int| 0 <= j < 0 ==> #[trigger] sensor_in_line(lines[j]) is None);
            }
        }
    }
}

} // verus!
