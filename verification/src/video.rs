use vstd::prelude::*;

verus! {

/// A full-screen video mode of the primary monitor.
#[derive(Clone, Copy, Debug, PartialEq, Eq, Structural)]
pub struct VideoMode {
    pub width: u32,
    pub height: u32,
    pub bit_depth: u16,
    pub refresh_rate: u16,
}

/// The menu offers only modes wider than 800 and taller than 600 pixels
/// with 32 bits per pixel.
pub open spec fn is_offered(mode: VideoMode) -> bool {
    mode.width > 800 && mode.height > 600 && mode.bit_depth == 32
}

/// Whether the menu offers this video mode.
pub fn offers_video_mode(mode: &VideoMode) -> (offered: bool)
    ensures
        offered == is_offered(*mode),
{
    mode.width > 800 && mode.height > 600 && mode.bit_depth == 32
}

/// The modes the menu offers, among those the monitor reports: exactly
/// the offered ones, in the order the monitor reported them.
pub fn filter_video_modes(available: &Vec<VideoMode>) -> (offered: Vec<VideoMode>)
    ensures
        offered@ == available@.filter(|m: VideoMode| is_offered(m)),
        forall|k: int|
            0 <= k < offered@.len() ==> #[trigger] offered@[k].width > 800 && offered@[k].height > 600
                && offered@[k].bit_depth == 32,
        forall|i: int|
            0 <= i < available@.len() && available@[i].width > 800 && available@[i].height > 600
                && available@[i].bit_depth == 32 ==> offered@.contains(#[trigger] available@[i]),
{
    let mut offered: Vec<VideoMode> = Vec::new();
    let mut i: usize = 0;
    while i < available.len()
        invariant
            i <= available.len(),
            offered@ == available@.take(i as int).filter(|m: VideoMode| is_offered(m)),
        decreases available.len() - i,
    {
        let mode = available[i];
        proof {
            reveal(Seq::filter);
            assert(available@.take(i as int + 1).drop_last() =~= available@.take(i as int));
        }
        if offers_video_mode(&mode) {
            offered.push(mode);
        }
        i = i + 1;
    }
    proof {
        assert(available@.take(available@.len() as int) =~= available@);
        crate::laws::law_offered_modes_by_fields(available@);
    }
    offered
}

/// The positions, among the modes the monitor reports, of the modes the
/// menu offers: every offered position and no other, in increasing order.
/// The modes at these positions are the offered modes.
pub fn offered_positions(available: &Vec<VideoMode>) -> (positions: Vec<usize>)
    ensures
        forall|k: int|
            0 <= k < positions@.len() ==> #[trigger] positions@[k] < available@.len()
                && is_offered(available@[positions@[k] as int]),
        forall|k: int, l: int| 0 <= k < l < positions@.len() ==> positions@[k] < positions@[l],
        forall|i: int|
            0 <= i < available@.len() && is_offered(#[trigger] available@[i]) ==> positions@.contains(
                i as usize,
            ),
        positions@.map_values(|p: usize| available@[p as int]) == available@.filter(
            |m: VideoMode| is_offered(m),
        ),
{
    let mut positions: Vec<usize> = Vec::new();
    let mut i: usize = 0;
    while i < available.len()
        invariant
            i <= available.len(),
            forall|k: int|
                0 <= k < positions@.len() ==> #[trigger] positions@[k] < i && is_offered(
                    available@[positions@[k] as int],
                ),
            forall|k: int, l: int| 0 <= k < l < positions@.len() ==> positions@[k] < positions@[l],
            forall|j: int|
                0 <= j < i && is_offered(#[trigger] available@[j]) ==> positions@.contains(j as usize),
            positions@.map_values(|p: usize| available@[p as int]) == available@.take(i as int).filter(
                |m: VideoMode| is_offered(m),
            ),
        decreases available.len() - i,
    {
        proof {
            reveal(Seq::filter);
            assert(available@.take(i as int + 1).drop_last() =~= available@.take(i as int));
        }
        let ghost before = positions@;
        if offers_video_mode(&available[i]) {
            positions.push(i);
            proof {
                assert(positions@.map_values(|p: usize| available@[p as int]) =~= before.map_values(
                    |p: usize| available@[p as int],
                ).push(available@[i as int]));
                assert forall|j: int|
                    0 <= j < i + 1 && is_offered(#[trigger] available@[j]) implies positions@.contains(
                    j as usize,
                ) by {
                    if j == i {
                        assert(positions@[positions@.len() - 1] == i);
                    } else {
                        let k = choose|k: int| 0 <= k < before.len() && before[k] == j as usize;
                        assert(positions@[k] == j as usize);
                    }
                }
            }
        } else {
            proof {
                assert forall|j: int|
                    0 <= j < i + 1 && is_offered(#[trigger] available@[j]) implies positions@.contains(
                    j as usize,
                ) by {
                    assert(j != i);
                }
            }
        }
        i = i + 1;
    }
    proof {
        assert(available@.take(available@.len() as int) =~= available@);
    }
    positions
}

/// The character of a decimal digit.
pub open spec fn digit_char(d: nat) -> char {
    if d == 0 {
        '0'
    } else if d == 1 {
        '1'
    } else if d == 2 {
        '2'
    } else if d == 3 {
        '3'
    } else if d == 4 {
        '4'
    } else if d == 5 {
        '5'
    } else if d == 6 {
        '6'
    } else if d == 7 {
        '7'
    } else if d == 8 {
        '8'
    } else {
        '9'
    }
}

/// The decimal notation of a natural number, without leading zeros.
pub open spec fn decimal(n: nat) -> Seq<char>
    decreases n,
{
    if n < 10 {
        seq![digit_char(n)]
    } else {
        decimal(n / 10).push(digit_char(n % 10))
    }
}

/// The text of a list entry for a video mode: width, `x`, height, `@`,
/// refresh rate and `Hz`, as in `1920x1080@60Hz`.
pub open spec fn video_mode_text(mode: VideoMode) -> Seq<char> {
    decimal(mode.width as nat) + seq!['x'] + decimal(mode.height as nat) + seq!['@'] + decimal(
        mode.refresh_rate as nat,
    ) + seq!['H', 'z']
}

fn digit_str(d: u32) -> (s: &'static str)
    requires
        d < 10,
    ensures
        s@ == seq![digit_char(d as nat)],
{
    if d == 0 {
        proof { reveal_strlit("0"); }
        "0"
    } else if d == 1 {
        proof { reveal_strlit("1"); }
        "1"
    } else if d == 2 {
        proof { reveal_strlit("2"); }
        "2"
    } else if d == 3 {
        proof { reveal_strlit("3"); }
        "3"
    } else if d == 4 {
        proof { reveal_strlit("4"); }
        "4"
    } else if d == 5 {
        proof { reveal_strlit("5"); }
        "5"
    } else if d == 6 {
        proof { reveal_strlit("6"); }
        "6"
    } else if d == 7 {
        proof { reveal_strlit("7"); }
        "7"
    } else if d == 8 {
        proof { reveal_strlit("8"); }
        "8"
    } else {
        proof { reveal_strlit("9"); }
        "9"
    }
}

/// Appends the decimal notation of `n` to `text`.
pub fn push_decimal(text: &mut String, n: u32)
    ensures
        final(text)@ == old(text)@ + decimal(n as nat),
    decreases n,
{
    if n >= 10 {
        push_decimal(text, n / 10);
        text.append(digit_str(n % 10));
        proof {
            assert(old(text)@ + decimal(n as nat / 10) + seq![digit_char((n % 10) as nat)]
                =~= old(text)@ + decimal(n as nat));
        }
    } else {
        text.append(digit_str(n));
    }
}

/// The text of the list entry for a video mode, such as `1920x1080@60Hz`.
pub fn video_mode_label(mode: &VideoMode) -> (label: String)
    ensures
        label@ == video_mode_text(*mode),
{
    let mut label = String::new();
    push_decimal(&mut label, mode.width);
    proof { reveal_strlit("x"); }
    label.append("x");
    push_decimal(&mut label, mode.height);
    proof { reveal_strlit("@"); }
    label.append("@");
    push_decimal(&mut label, mode.refresh_rate as u32);
    proof { reveal_strlit("Hz"); }
    label.append("Hz");
    proof {
        assert(label@ =~= video_mode_text(*mode));
    }
    label
}

/// The list entries for a sequence of video modes, one per mode, in order.
pub fn video_mode_labels(modes: &Vec<VideoMode>) -> (labels: Vec<String>)
    ensures
        labels@.len() == modes@.len(),
        forall|i: int| 0 <= i < modes@.len() ==> #[trigger] labels@[i]@ == video_mode_text(modes@[i]),
{
    let mut labels: Vec<String> = Vec::new();
    let mut i: usize = 0;
    while i < modes.len()
        invariant
            i <= modes.len(),
            labels@.len() == i,
            forall|j: int| 0 <= j < i ==> #[trigger] labels@[j]@ == video_mode_text(modes@[j]),
        decreases modes.len() - i,
    {
        let label = video_mode_label(&modes[i]);
        labels.push(label);
        i = i + 1;
    }
    labels
}

} // verus!
