use vstd::prelude::*;
use vstd::string::StringExecFns;

use crate::config::EncodeConfig;
use crate::error::TranscodeError;
use crate::filter::{build_filter, decimal, decimal_string, filter_of};
use crate::format::{format_for, resolve_format, PixelFormat};
use crate::pixels::{PixelPlanes, PixelPlanesView};

verus! {

/// How many times the still is written: the clip has this many frames.
pub const FRAMES: i32 = 2;

/// The characters of each string, in order.
pub open spec fn strings_view(v: Seq<String>) -> Seq<Seq<char>> {
    v.map_values(|s: String| s@)
}

/// The encoder's arguments for a buffer of the given geometry and format,
/// up to the output path, which comes last.
pub open spec fn args_spec(p: PixelPlanesView, fmt: PixelFormat, c: EncodeConfig) -> Seq<
    Seq<char>,
> {
    seq![
        "-hide_banner"@,
        "-f"@,
        "rawvideo"@,
        "-pix_fmt"@,
        fmt.tag_spec(),
        "-color_trc"@,
        "linear"@,
        "-video_size"@,
        decimal(p.width) + "x"@ + decimal(p.height),
        "-i"@,
        "-"@,
        "-vframes"@,
        decimal(FRAMES as int),
        "-r"@,
        decimal(FRAMES as int) + "/"@ + decimal(c.seconds as int),
        "-vf"@,
        "zscale="@ + filter_of(c),
        "-pix_fmt"@,
        c.pix_fmt@,
        "-c:v"@,
        c.codec@,
    ] + strings_view(c.extra_opts@) + seq![
        "-tag:v"@,
        "hvc1"@,
        "-f"@,
        "mp4"@,
        "-brand"@,
        "mp42"@,
        "-y"@,
    ]
}

fn push_str(v: &mut Vec<String>, s: &str)
    ensures
        final(v)@.len() == old(v)@.len() + 1,
        strings_view(final(v)@) == strings_view(old(v)@).push(s@),
{
    v.push(String::from_str(s));
    proof {
        assert(strings_view(final(v)@) =~= strings_view(old(v)@).push(s@));
    }
}

fn push_string(v: &mut Vec<String>, s: String)
    ensures
        final(v)@.len() == old(v)@.len() + 1,
        strings_view(final(v)@) == strings_view(old(v)@).push(s@),
{
    v.push(s);
    proof {
        assert(strings_view(final(v)@) =~= strings_view(old(v)@).push(s@));
    }
}

/// The arguments that make the encoder read the buffer as raw frames and
/// write a PQ clip, up to the output path, which the caller appends. Fails,
/// before anything is run, when the buffer's sample width has no format.
pub fn encoder_args(planes: &PixelPlanes, config: &EncodeConfig) -> (r: Result<
    Vec<String>,
    TranscodeError,
>)
    ensures
        match format_for(planes@.cbytes) {
            Some(fmt) => (r matches Ok(v) && strings_view(v@) == args_spec(planes@, fmt, *config)),
            None => r == Err::<Vec<String>, TranscodeError>(
                TranscodeError::UnsupportedFormatError { cbytes: planes@.cbytes as usize },
            ),
        },
{
    let cbytes = planes.cbytes();
    let fmt = match resolve_format(cbytes) {
        Ok(f) => f,
        Err(e) => return Err(e),
    };
    let mut v: Vec<String> = Vec::new();
    push_str(&mut v, "-hide_banner");
    push_str(&mut v, "-f");
    push_str(&mut v, "rawvideo");
    push_str(&mut v, "-pix_fmt");
    push_str(&mut v, fmt.tag());
    push_str(&mut v, "-color_trc");
    push_str(&mut v, "linear");
    push_str(&mut v, "-video_size");
    let size = decimal_string(planes.width()).concat("x");
    let h = decimal_string(planes.height());
    push_string(&mut v, size.concat(h.as_str()));
    push_str(&mut v, "-i");
    push_str(&mut v, "-");
    push_str(&mut v, "-vframes");
    push_string(&mut v, decimal_string(FRAMES));
    push_str(&mut v, "-r");
    let rate = decimal_string(FRAMES).concat("/");
    let secs = decimal_string(config.seconds);
    push_string(&mut v, rate.concat(secs.as_str()));
    push_str(&mut v, "-vf");
    let filter = build_filter(config);
    push_string(&mut v, String::from_str("zscale=").concat(filter.as_str()));
    push_str(&mut v, "-pix_fmt");
    push_string(&mut v, config.pix_fmt.clone());
    push_str(&mut v, "-c:v");
    push_string(&mut v, config.codec.clone());
    let ghost head = strings_view(v@);
    let mut i: usize = 0;
    while i < config.extra_opts.len()
        invariant
            i <= config.extra_opts@.len(),
            strings_view(v@) == head + strings_view(config.extra_opts@.subrange(0, i as int)),
        decreases config.extra_opts@.len() - i,
    {
        push_string(&mut v, config.extra_opts[i].clone());
        proof {
            assert(strings_view(config.extra_opts@.subrange(0, i + 1)) =~= strings_view(
                config.extra_opts@.subrange(0, i as int),
            ).push(config.extra_opts@[i as int]@));
            assert(strings_view(v@) =~= head + strings_view(
                config.extra_opts@.subrange(0, i + 1),
            ));
        }
        i = i + 1;
    }
    proof {
        assert(config.extra_opts@.subrange(0, i as int) =~= config.extra_opts@);
    }
    push_str(&mut v, "-tag:v");
    push_str(&mut v, "hvc1");
    push_str(&mut v, "-f");
    push_str(&mut v, "mp4");
    push_str(&mut v, "-brand");
    push_str(&mut v, "mp42");
    push_str(&mut v, "-y");
    proof {
        assert(strings_view(v@) =~= args_spec(planes@, fmt, *config));
    }
    Ok(v)
}

} // verus!
