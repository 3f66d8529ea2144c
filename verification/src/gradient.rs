//! The colour gradient that the globe's shader looks its data values up in.

use vstd::prelude::*;

verus! {

/// The RGBA colour at position `i` of the gradient: light grey at 0 (no
/// data), blue brightening to white up to 127, opaque white at 128, and
/// white darkening to red from 129 on. Every entry but the two fixed ones
/// carries the given `alpha`.
pub open spec fn gradient_entry(i: int, alpha: u8) -> [u8; 4] {
    if i == 0 {
        [200u8, 200u8, 200u8, 255u8]
    } else if i <= 127 {
        [(2 * i) as u8, (2 * i) as u8, 255u8, alpha]
    } else if i == 128 {
        [255u8, 255u8, 255u8, 255u8]
    } else {
        [255u8, (512 - 2 * i) as u8, (512 - 2 * i) as u8, alpha]
    }
}

/// Builds the 256-entry gradient with the given alpha for the data colours.
pub fn create_gradient(alpha: u8) -> (gradient: [[u8; 4]; 256])
    ensures
        forall|i: int| 0 <= i < 256 ==> #[trigger] gradient[i] == gradient_entry(i, alpha),
        gradient[0] == [200u8, 200u8, 200u8, 255u8],
        gradient[128] == [255u8, 255u8, 255u8, 255u8],
        forall|i: int|
            1 <= i <= 127 ==> {
                &&& #[trigger] gradient[i][0] == 2 * i
                &&& gradient[i][1] == 2 * i
                &&& gradient[i][2] == 255
                &&& gradient[i][3] == alpha
            },
        forall|i: int|
            129 <= i <= 255 ==> {
                &&& #[trigger] gradient[i][0] == 255
                &&& gradient[i][1] == 512 - 2 * i
                &&& gradient[i][2] == 512 - 2 * i
                &&& gradient[i][3] == alpha
            },
{
    let mut gradient: [[u8; 4]; 256] = [[0u8; 4]; 256];
    let mut i: usize = 0;
    while i < 256
        invariant
            0 <= i <= 256,
            forall|j: int| 0 <= j < i ==> #[trigger] gradient[j] == gradient_entry(j, alpha),
        decreases 256 - i,
    {
        let k: u8 = i as u8;
        if i == 0 {
            gradient[0] = [200, 200, 200, 255];
        } else if i <= 127 {
            gradient[i] = [k * 2, k * 2, 255, alpha];
        } else if i == 128 {
            gradient[128] = [255; 4];
        } else {
            gradient[i] = [255, 255 - (k - 128u8) * 2 + 1, 255 - (k - 128u8) * 2 + 1, alpha];
        }
        assert(gradient[i as int] =~= gradient_entry(i as int, alpha));
        i = i + 1;
    }
    gradient
}


/// The channels of every entry: grey at 0, opaque white at 128; on the blue
/// half blue is full and red = green = 2 i; on the red half red is full and
/// green = blue = 512 - 2 i; both halves carry the given alpha.
pub proof fn lemma_gradient_channels(i: int, alpha: u8)
    requires
        0 <= i <= 255,
    ensures
        i == 0 ==> gradient_entry(i, alpha)[0] == 200 && gradient_entry(i, alpha)[1] == 200
            && gradient_entry(i, alpha)[2] == 200 && gradient_entry(i, alpha)[3] == 255,
        i == 128 ==> gradient_entry(i, alpha)[0] == 255 && gradient_entry(i, alpha)[1] == 255
            && gradient_entry(i, alpha)[2] == 255 && gradient_entry(i, alpha)[3] == 255,
        1 <= i <= 127 ==> gradient_entry(i, alpha)[0] == 2 * i && gradient_entry(i, alpha)[1] == 2
            * i && gradient_entry(i, alpha)[2] == 255 && gradient_entry(i, alpha)[3] == alpha,
        129 <= i <= 255 ==> gradient_entry(i, alpha)[0] == 255 && gradient_entry(i, alpha)[1] == 512
            - 2 * i && gradient_entry(i, alpha)[2] == 512 - 2 * i && gradient_entry(i, alpha)[3]
            == alpha,
{
}

/// The blue half and the red half of the gradient mirror each other around
/// the white middle: the green (and blue-to-red) channel at `256 - i`
/// equals the red channel at `i`, and both halves carry the same alpha.
pub proof fn lemma_gradient_mirrors(i: int, alpha: u8)
    requires
        1 <= i <= 127,
    ensures
        gradient_entry(256 - i, alpha)[1] == gradient_entry(i, alpha)[0],
        gradient_entry(256 - i, alpha)[2] == gradient_entry(i, alpha)[1],
        gradient_entry(256 - i, alpha)[3] == gradient_entry(i, alpha)[3],
{
}

/// Along each half the colour changes monotonically: red and green rise
/// towards white on the blue half, green and blue fall away from white on
/// the red half.
pub proof fn lemma_gradient_monotone(i: int, j: int, alpha: u8)
    requires
        1 <= i < j <= 255,
    ensures
        j <= 127 ==> gradient_entry(i, alpha)[0] < gradient_entry(j, alpha)[0],
        129 <= i ==> gradient_entry(i, alpha)[1] > gradient_entry(j, alpha)[1],
{
}

/// The bytes of the gradient, entry after entry, as the texture upload
/// reads them: byte `4 * e + c` is channel `c` of entry `e`.
pub fn gradient_bytes(gradient: &[[u8; 4]; 256]) -> (bytes: [u8; 1024])
    ensures
        forall|k: int| 0 <= k < 1024 ==> #[trigger] bytes[k] == gradient[k / 4][k % 4],
{
    let mut bytes: [u8; 1024] = [0u8; 1024];
    let mut e: usize = 0;
    while e < 256
        invariant
            0 <= e <= 256,
            forall|k: int| 0 <= k < 4 * e ==> #[trigger] bytes[k] == gradient[k / 4][k % 4],
        decreases 256 - e,
    {
        let entry: [u8; 4] = gradient[e];
        let mut c: usize = 0;
        while c < 4
            invariant
                0 <= e < 256,
                0 <= c <= 4,
                entry == gradient[e as int],
                forall|k: int| 0 <= k < 4 * e + c ==> #[trigger] bytes[k] == gradient[k / 4][k % 4],
            decreases 4 - c,
        {
            bytes[4 * e + c] = entry[c];
            assert((4 * e + c) as int / 4 == e && (4 * e + c) as int % 4 == c);
            c = c + 1;
        }
        e = e + 1;
    }
    bytes
}

} // verus!
