//! The command ingress boundary and the wire framing served to observers.
//!
//! Commands arriving from outside are validated here before anything reaches
//! the bus: the bus itself never carries a malformed command. Outgoing video
//! is framed here too: one multipart chunk per stored camera frame, byte for
//! byte as the stream protocol wants it.

use vstd::prelude::*;

use crate::event::{
    LedCommand, Mode, ModeCommand, MotorCommand, MotorDirection, ServoCommand, MAX_SERVO_ANGLE,
    MAX_SPEED,
};

verus! {

/// Angle the camera servo is sent to on the "up" preset.
pub const SERVO_UP_ANGLE: u8 = 170;

/// Angle the camera servo is sent to on the "down" preset.
pub const SERVO_DOWN_ANGLE: u8 = 10;

/// Why a command was refused at the boundary.
#[derive(Clone, Copy, Debug, PartialEq, Eq, Structural)]
pub enum CommandError {
    /// The speed lies outside the 0..=100 scale.
    InvalidSpeed,
    /// The angle lies outside the 0..=180 range the servo can reach.
    InvalidAngle,
    /// The command is well-formed but no node acts on it yet.
    NotSupported,
}

impl CommandError {
    /// The structured reason handed back to the client.
    pub fn reason(&self) -> (s: &'static str)
        ensures
            *self is InvalidSpeed ==> s@ == "speed must be between 0 and 100"@,
            *self is InvalidAngle ==> s@ == "angle must be between 0 and 180"@,
            *self is NotSupported ==> s@ == "command not yet supported"@,
    {
        match self {
            CommandError::InvalidSpeed => "speed must be between 0 and 100",
            CommandError::InvalidAngle => "angle must be between 0 and 180",
            CommandError::NotSupported => "command not yet supported",
        }
    }
}

/// Validate one drive order. Accepted exactly when the speed is on the
/// 0..=100 scale; the command is passed through unchanged.
pub fn make_motor_command(direction: MotorDirection, speed: u8) -> (r: Result<
    MotorCommand,
    CommandError,
>)
    ensures
        speed <= MAX_SPEED ==> r == Ok::<MotorCommand, CommandError>(
            MotorCommand { direction, speed },
        ),
        speed > MAX_SPEED ==> r == Err::<MotorCommand, CommandError>(CommandError::InvalidSpeed),
{
    if speed <= MAX_SPEED {
        Ok(MotorCommand { direction, speed })
    } else {
        Err(CommandError::InvalidSpeed)
    }
}

/// Validate one servo order. Accepted exactly when the angle is one the
/// servo can reach.
pub fn make_servo_command(angle: u8) -> (r: Result<ServoCommand, CommandError>)
    ensures
        angle <= MAX_SERVO_ANGLE ==> r == Ok::<ServoCommand, CommandError>(ServoCommand { angle }),
        angle > MAX_SERVO_ANGLE ==> r == Err::<ServoCommand, CommandError>(
            CommandError::InvalidAngle,
        ),
{
    if angle <= MAX_SERVO_ANGLE {
        Ok(ServoCommand { angle })
    } else {
        Err(CommandError::InvalidAngle)
    }
}

/// Answer a LED colour command. Any colour is well-formed, but no node
/// drives the strip from commands yet, so the boundary refuses every one
/// explicitly instead of dropping it silently.
pub fn make_led_command(_red: u8, _green: u8, _blue: u8) -> (r: Result<LedCommand, CommandError>)
    ensures
        r == Err::<LedCommand, CommandError>(CommandError::NotSupported),
{
    Err(CommandError::NotSupported)
}

/// Build a mode switch; either mode is always valid.
pub fn make_mode_command(mode: Mode) -> (c: ModeCommand)
    ensures
        c == (ModeCommand { mode }),
{
    ModeCommand { mode }
}

/// The speed each fixed drive endpoint uses: backing off is gentler than
/// driving out, and stopping is stopping.
pub open spec fn preset_speed(direction: MotorDirection) -> u8 {
    match direction {
        MotorDirection::Backward => 90,
        MotorDirection::Stop => 0,
        _ => 100,
    }
}

/// The drive order a fixed endpoint publishes for its direction.
pub fn preset_motor_command(direction: MotorDirection) -> (c: MotorCommand)
    ensures
        c == (MotorCommand { direction, speed: preset_speed(direction) }),
{
    let speed: u8 = match direction {
        MotorDirection::Backward => 90,
        MotorDirection::Stop => 0,
        _ => 100,
    };
    MotorCommand { direction, speed }
}

/// The decimal digits of `n`, most significant first, as ASCII bytes.
pub open spec fn decimal_digits(n: nat) -> Seq<u8>
    decreases n,
{
    if n < 10 {
        seq![(n + 48) as u8]
    } else {
        decimal_digits(n / 10).push((n % 10 + 48) as u8)
    }
}

/// Render a length in decimal ASCII, exactly as `decimal_digits` says.
pub fn decimal_bytes(n: usize) -> (v: Vec<u8>)
    ensures
        v@ == decimal_digits(n as nat),
    decreases n,
{
    if n < 10 {
        let mut v: Vec<u8> = Vec::new();
        v.push((n as u8) + 48);
        proof {
            assert(v@ =~= decimal_digits(n as nat));
        }
        v
    } else {
        let mut v = decimal_bytes(n / 10);
        v.push(((n % 10) as u8) + 48);
        v
    }
}

/// Carriage return, line feed.
pub open spec fn crlf() -> Seq<u8> {
    seq![13u8, 10u8]
}

/// The boundary line that opens every chunk of the stream: `--frame` and a
/// line break, in ASCII.
pub open spec fn boundary_line() -> Seq<u8> {
    seq![45u8, 45u8, 102u8, 114u8, 97u8, 109u8, 101u8, 13u8, 10u8]
}

/// The header line `Content-Type: image/jpeg` and its line break, in ASCII.
pub open spec fn content_type_line() -> Seq<u8> {
    seq![
        67u8, 111u8, 110u8, 116u8, 101u8, 110u8, 116u8, 45u8, 84u8, 121u8, 112u8, 101u8, 58u8,
        32u8, 105u8, 109u8, 97u8, 103u8, 101u8, 47u8, 106u8, 112u8, 101u8, 103u8, 13u8, 10u8,
    ]
}

/// The header name `Content-Length: `, in ASCII, up to where the digits
/// start.
pub open spec fn content_length_prefix() -> Seq<u8> {
    seq![
        67u8, 111u8, 110u8, 116u8, 101u8, 110u8, 116u8, 45u8, 76u8, 101u8, 110u8, 103u8, 116u8,
        104u8, 58u8, 32u8,
    ]
}

/// One whole multipart chunk: boundary, headers, a blank line, the JPEG
/// bytes, and the closing line break.
pub open spec fn mjpeg_chunk_spec(jpeg: Seq<u8>) -> Seq<u8> {
    boundary_line() + content_type_line() + content_length_prefix() + decimal_digits(jpeg.len())
        + crlf() + crlf() + jpeg + crlf()
}

/// Frame one stored camera frame as a multipart chunk, byte for byte.
pub fn mjpeg_chunk(jpeg: &Vec<u8>) -> (chunk: Vec<u8>)
    ensures
        chunk@ == mjpeg_chunk_spec(jpeg@),
{
    let mut chunk: Vec<u8> = Vec::new();
    push_boundary_line(&mut chunk);
    push_content_type_line(&mut chunk);
    push_content_length_prefix(&mut chunk);
    let mut digits = decimal_bytes(jpeg.len());
    chunk.append(&mut digits);
    push_crlf(&mut chunk);
    push_crlf(&mut chunk);
    let ghost header = boundary_line() + content_type_line() + content_length_prefix()
        + decimal_digits(jpeg@.len()) + crlf() + crlf();
    proof {
        assert(chunk@ =~= header);
    }
    let mut i: usize = 0;
    while i < jpeg.len()
        invariant
            i <= jpeg.len(),
            chunk@ == header + jpeg@.subrange(0, i as int),
        decreases jpeg.len() - i,
    {
        chunk.push(jpeg[i]);
        proof {
            assert(chunk@ =~= header + jpeg@.subrange(0, i + 1));
        }
        i = i + 1;
    }
    push_crlf(&mut chunk);
    proof {
        assert(jpeg@.subrange(0, jpeg@.len() as int) =~= jpeg@);
        assert(chunk@ =~= mjpeg_chunk_spec(jpeg@));
    }
    chunk
}

/// What one pull cycle of the video stream does.
#[derive(Debug, PartialEq, Eq)]
pub enum StreamStep {
    /// Emit the stored frame as one multipart chunk.
    Chunk(Vec<u8>),
    /// No frame is stored yet: emit nothing this cycle and keep pulling.
    Idle,
    /// The shutdown signal has fired: end the stream.
    End,
}

/// One pull of the video stream. Only the shutdown signal ends the stream;
/// an empty frame cell merely yields nothing this cycle, so a client that
/// connects before the first frame is stored starts receiving as soon as
/// frames arrive. Otherwise the stored frame goes out as one chunk.
pub fn mjpeg_step(shutdown_fired: bool, frame: &Vec<u8>) -> (out: StreamStep)
    ensures
        out is End <==> shutdown_fired,
        !shutdown_fired && frame@.len() == 0 ==> out is Idle,
        !shutdown_fired && frame@.len() > 0 ==> (out matches StreamStep::Chunk(chunk) && chunk@
            == mjpeg_chunk_spec(frame@)),
{
    if shutdown_fired {
        StreamStep::End
    } else if frame.len() == 0 {
        StreamStep::Idle
    } else {
        StreamStep::Chunk(mjpeg_chunk(frame))
    }
}

fn push_crlf(v: &mut Vec<u8>)
    ensures
        final(v)@ == old(v)@ + crlf(),
{
    v.push(13);
    v.push(10);
    proof {
        assert(v@ =~= old(v)@ + crlf());
    }
}

fn push_boundary_line(v: &mut Vec<u8>)
    ensures
        final(v)@ == old(v)@ + boundary_line(),
{
    v.push(45);
    v.push(45);
    v.push(102);
    v.push(114);
    v.push(97);
    v.push(109);
    v.push(101);
    v.push(13);
    v.push(10);
    proof {
        assert(v@ =~= old(v)@ + boundary_line());
    }
}

fn push_content_type_line(v: &mut Vec<u8>)
    ensures
        final(v)@ == old(v)@ + content_type_line(),
{
    v.push(67);
    v.push(111);
    v.push(110);
    v.push(116);
    v.push(101);
    v.push(110);
    v.push(116);
    v.push(45);
    v.push(84);
    v.push(121);
    v.push(112);
    v.push(101);
    v.push(58);
    v.push(32);
    v.push(105);
    v.push(109);
    v.push(97);
    v.push(103);
    v.push(101);
    v.push(47);
    v.push(106);
    v.push(112);
    v.push(101);
    v.push(103);
    v.push(13);
    v.push(10);
    proof {
        assert(v@ =~= old(v)@ + content_type_line());
    }
}

fn push_content_length_prefix(v: &mut Vec<u8>)
    ensures
        final(v)@ == old(v)@ + content_length_prefix(),
{
    v.push(67);
    v.push(111);
    v.push(110);
    v.push(116);
    v.push(101);
    v.push(110);
    v.push(116);
    v.push(45);
    v.push(76);
    v.push(101);
    v.push(110);
    v.push(103);
    v.push(116);
    v.push(104);
    v.push(58);
    v.push(32);
    proof {
        assert(v@ =~= old(v)@ + content_length_prefix());
    }
}

} // verus!
