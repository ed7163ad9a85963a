//! Camera configuration: the supported sensor, its resolution, the
//! loopback resolution that follows from it, and the `media-ctl` /
//! `v4l2-ctl` commands that configure the capture pipeline.

use vstd::prelude::*;
use crate::text::{contains, contains_chars, str_chars};

verus! {

/// Native width of the OV8856 rear sensor.
pub const SENSOR_WIDTH: u32 = 3280;

/// Native height of the OV8856 rear sensor.
pub const SENSOR_HEIGHT: u32 = 2464;

/// Whether the discovered sensor is supported: only the OV8856 (rear
/// camera) is.
pub fn is_supported_sensor(sensor_name: &str) -> (b: bool)
    ensures
        b == contains(sensor_name@, "ov8856"@),
{
    let name = str_chars(sensor_name);
    let rear = str_chars("ov8856");
    contains_chars(name.as_slice(), rear.as_slice())
}

/// The loopback output resolution for a camera of `width` x `height`:
/// half in each direction, as the demosaic produces.
pub fn loopback_dimensions(width: u32, height: u32) -> (d: (u32, u32))
    ensures
        d.0 == width / 2,
        d.1 == height / 2,
{
    (width / 2, height / 2)
}

/// The ASCII digit for `d` (0 to 9).
pub open spec fn digit_char(d: nat) -> char {
    ((d + 48) as u8) as char
}

/// `n` in decimal, without leading zeros, as `format!("{}", n)` writes it.
pub open spec fn decimal(n: nat) -> Seq<char>
    decreases n,
{
    if n < 10 {
        seq![digit_char(n)]
    } else {
        decimal(n / 10).push(digit_char(n % 10))
    }
}

/// Append `n` in decimal to `s`.
fn push_decimal(s: &mut String, n: u32)
    ensures
        final(s)@ == old(s)@ + decimal(n as nat),
    decreases n,
{
    if n >= 10 {
        push_decimal(s, n / 10);
    }
    let d = (n % 10) as u8;
    s.push((d + 48) as char);
    proof {
        assert(decimal(n as nat) == if n < 10 {
            seq![digit_char(n as nat)]
        } else {
            decimal((n / 10) as nat).push(digit_char((n % 10) as nat))
        });
        assert(s@ =~= old(s)@ + decimal(n as nat));
    }
}

/// The `WxH` size in a media bus format.
pub open spec fn frame_size_text(width: nat, height: nat) -> Seq<char> {
    decimal(width) + "x"@ + decimal(height)
}

/// The commands that configure the capture pipeline (sensor -> SENINF ->
/// ISP), in order:
/// 1. enable the link from the sensor to SENINF;
/// 2. set the sensor output format (SGRBG10, 10-bit);
/// 3. set the SENINF sink pad format;
/// 4. set the SENINF source pad format;
/// 5. set the video device format to MBg8 (8-bit Bayer GRBG).
pub open spec fn pipeline_commands_spec(
    media_device: Seq<char>,
    video_device: Seq<char>,
    sensor_name: Seq<char>,
    width: nat,
    height: nat,
) -> Seq<Seq<Seq<char>>> {
    let size = frame_size_text(width, height);
    seq![
        seq![
            "media-ctl"@,
            "-d"@,
            media_device,
            "-l"@,
            "'"@ + sensor_name + "':0 -> '1a040000.seninf':0 [1]"@,
        ],
        seq![
            "media-ctl"@,
            "-d"@,
            media_device,
            "-V"@,
            "'"@ + sensor_name + "':0 [fmt:SGRBG10_1X10/"@ + size + "]"@,
        ],
        seq!["media-ctl"@, "-d"@, media_device, "-V"@, "'1a040000.seninf':0 [fmt:SGRBG10_1X10/"@ + size + "]"@],
        seq!["media-ctl"@, "-d"@, media_device, "-V"@, "'1a040000.seninf':4 [fmt:SGRBG10_1X10/"@ + size + "]"@],
        seq![
            "v4l2-ctl"@,
            "-d"@,
            video_device,
            "--set-fmt-video"@,
            "width="@ + decimal(width) + ",height="@ + decimal(height) + ",pixelformat=MBg8"@,
        ],
    ]
}

/// The text of a command's arguments.
pub open spec fn command_view(c: Seq<String>) -> Seq<Seq<char>> {
    c.map_values(|a: String| a@)
}

/// The text of a list of commands.
pub open spec fn commands_view(v: Seq<Vec<String>>) -> Seq<Seq<Seq<char>>> {
    v.map_values(|c: Vec<String>| command_view(c@))
}

/// A command of five arguments.
fn command5(a: &str, b: &str, c: &str, d: &str, e: String) -> (v: Vec<String>)
    ensures
        command_view(v@) == seq![a@, b@, c@, d@, e@],
{
    let mut v: Vec<String> = Vec::new();
    v.push(String::from_str(a));
    v.push(String::from_str(b));
    v.push(String::from_str(c));
    v.push(String::from_str(d));
    v.push(e);
    assert(command_view(v@) =~= seq![a@, b@, c@, d@, e@]);
    v
}

/// Argument vectors of the commands that configure the capture pipeline
/// for a `width` x `height` sensor (see [`pipeline_commands_spec`]). The
/// first argument of each is the program to run.
pub fn pipeline_commands(
    media_device: &str,
    video_device: &str,
    sensor_name: &str,
    width: u32,
    height: u32,
) -> (cmds: Vec<Vec<String>>)
    ensures
        commands_view(cmds@) == pipeline_commands_spec(
            media_device@,
            video_device@,
            sensor_name@,
            width as nat,
            height as nat,
        ),
{
    let mut size = String::new();
    push_decimal(&mut size, width);
    size.append("x");
    push_decimal(&mut size, height);
    assert(size@ =~= frame_size_text(width as nat, height as nat));

    let mut link = String::from_str("'");
    link.append(sensor_name);
    link.append("':0 -> '1a040000.seninf':0 [1]");

    let mut sensor_fmt = String::from_str("'");
    sensor_fmt.append(sensor_name);
    sensor_fmt.append("':0 [fmt:SGRBG10_1X10/");
    sensor_fmt.append(size.as_str());
    sensor_fmt.append("]");

    let mut sink_fmt = String::from_str("'1a040000.seninf':0 [fmt:SGRBG10_1X10/");
    sink_fmt.append(size.as_str());
    sink_fmt.append("]");

    let mut source_fmt = String::from_str("'1a040000.seninf':4 [fmt:SGRBG10_1X10/");
    source_fmt.append(size.as_str());
    source_fmt.append("]");

    let mut video_fmt = String::from_str("width=");
    push_decimal(&mut video_fmt, width);
    video_fmt.append(",height=");
    push_decimal(&mut video_fmt, height);
    video_fmt.append(",pixelformat=MBg8");

    let ghost size_text = size@;
    let ghost link_text = link@;
    let ghost sensor_text = sensor_fmt@;
    let ghost sink_text = sink_fmt@;
    let ghost source_text = source_fmt@;
    let ghost video_text = video_fmt@;

    let mut cmds: Vec<Vec<String>> = Vec::new();
    cmds.push(command5("media-ctl", "-d", media_device, "-l", link));
    cmds.push(command5("media-ctl", "-d", media_device, "-V", sensor_fmt));
    cmds.push(command5("media-ctl", "-d", media_device, "-V", sink_fmt));
    cmds.push(command5("media-ctl", "-d", media_device, "-V", source_fmt));
    cmds.push(command5("v4l2-ctl", "-d", video_device, "--set-fmt-video", video_fmt));
    proof {
        let spec = pipeline_commands_spec(
            media_device@,
            video_device@,
            sensor_name@,
            width as nat,
            height as nat,
        );
        assert(link_text =~= "'"@ + sensor_name@ + "':0 -> '1a040000.seninf':0 [1]"@);
        assert(sensor_text =~= "'"@ + sensor_name@ + "':0 [fmt:SGRBG10_1X10/"@ + size_text + "]"@);
        assert(sink_text =~= "'1a040000.seninf':0 [fmt:SGRBG10_1X10/"@ + size_text + "]"@);
        assert(source_text =~= "'1a040000.seninf':4 [fmt:SGRBG10_1X10/"@ + size_text + "]"@);
        assert(video_text =~= "width="@ + decimal(width as nat) + ",height="@ + decimal(
            height as nat,
        ) + ",pixelformat=MBg8"@);
        assert(commands_view(cmds@) =~= spec);
    }
    cmds
}

} // verus!

verus! {

/// The pipeline is configured on the devices it was given, with the sizes
/// it was given: five commands of five arguments; the first four run
/// `media-ctl -d` on `media_device`, the last `v4l2-ctl -d` on
/// `video_device`; the sensor link and sensor format name `sensor_name`;
/// every format names the `width` x `height` size in decimal.
pub proof fn lemma_pipeline_targets(
    media_device: Seq<char>,
    video_device: Seq<char>,
    sensor_name: Seq<char>,
    width: nat,
    height: nat,
)
    ensures
        ({
            let cmds = pipeline_commands_spec(
                media_device,
                video_device,
                sensor_name,
                width,
                height,
            );
            let size = decimal(width) + "x"@ + decimal(height);
            &&& cmds.len() == 5
            &&& forall|i: int| 0 <= i < 5 ==> #[trigger] cmds[i].len() == 5
            &&& forall|i: int|
                0 <= i < 4 ==> #[trigger] cmds[i][0] == "media-ctl"@ && cmds[i][1] == "-d"@
                    && cmds[i][2] == media_device
            &&& cmds[4][0] == "v4l2-ctl"@
            &&& cmds[4][1] == "-d"@
            &&& cmds[4][2] == video_device
            &&& cmds[0][3] == "-l"@
            &&& forall|i: int| 1 <= i < 4 ==> #[trigger] cmds[i][3] == "-V"@
            &&& cmds[4][3] == "--set-fmt-video"@
            &&& cmds[0][4].subrange(1, 1 + sensor_name.len() as int) == sensor_name
            &&& cmds[1][4].subrange(1, 1 + sensor_name.len() as int) == sensor_name
            &&& forall|i: int|
                1 <= i < 4 ==> #[trigger] cmds[i][4].subrange(
                    cmds[i][4].len() - size.len() - 1,
                    cmds[i][4].len() - 1,
                ) == size
            &&& cmds[4][4].subrange(6, 6 + decimal(width).len() as int) == decimal(width)
        }),
{
    let cmds = pipeline_commands_spec(media_device, video_device, sensor_name, width, height);
    let size = decimal(width) + "x"@ + decimal(height);
    reveal_strlit("'");
    reveal_strlit("]");
    reveal_strlit("width=");
    assert(size == frame_size_text(width, height));
    assert(cmds[0][4].subrange(1, 1 + sensor_name.len() as int) =~= sensor_name);
    assert(cmds[1][4].subrange(1, 1 + sensor_name.len() as int) =~= sensor_name);
    assert forall|i: int| 1 <= i < 4 implies #[trigger] cmds[i][4].subrange(
        cmds[i][4].len() - size.len() - 1,
        cmds[i][4].len() - 1,
    ) == size by {
        assert(cmds[i][4].subrange(cmds[i][4].len() - size.len() - 1, cmds[i][4].len() - 1)
            =~= size);
    }
    assert(cmds[4][4].subrange(6, 6 + decimal(width).len() as int) =~= decimal(width));
}

} // verus!
