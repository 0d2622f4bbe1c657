//! Per-frame renderer state machine: progressive-accumulation sample
//! counter, compute-dispatch grid sizing, and the byte-exact camera
//! uniform layout shared with the compute program.
//!
//! The GPU resources themselves (device, pipeline, textures, surface) are
//! owned by the unverified host; it drives this state machine and executes
//! the plain-value commands it returns.

use vstd::bytes::*;
use vstd::prelude::*;

verus! {

/// Side length in pixels of the square tile covered by one compute workgroup.
pub const WORKGROUP_SIZE: u32 = 10;

/// Size in bytes of the camera uniform buffer: two 4x4 matrices of 4-byte
/// scalars, inverse projection first, inverse view second.
pub const CAMERA_BUFFER_SIZE: usize = 128;

/// Number of workgroups needed to cover `pixels` pixels with tiles of
/// `tile` pixels: the quotient rounded up, so that a partial tile at the
/// edge still gets a workgroup.
pub open spec fn spec_workgroup_count(pixels: int, tile: int) -> int {
    (pixels + tile - 1) / tile
}

/// The little-endian bytes of a sequence of 32-bit words, in order.
pub open spec fn spec_words_to_le_bytes(ws: Seq<u32>) -> Seq<u8>
    decreases ws.len(),
{
    if ws.len() == 0 {
        Seq::empty()
    } else {
        spec_words_to_le_bytes(ws.drop_last()) + spec_u32_to_le_bytes(ws.last())
    }
}

proof fn lemma_words_to_le_bytes_len(ws: Seq<u32>)
    ensures
        spec_words_to_le_bytes(ws).len() == 4 * ws.len(),
    decreases ws.len(),
{
    lemma_auto_spec_u32_to_from_le_bytes();
    if ws.len() > 0 {
        lemma_words_to_le_bytes_len(ws.drop_last());
    }
}

/// The camera uniform contents: the inverse projection matrix's 16 words,
/// immediately followed by the inverse view matrix's 16 words, all
/// little-endian. This layout is a byte-exact contract with the compute
/// program.
pub open spec fn spec_camera_uniform(inv_proj: Seq<u32>, inv_view: Seq<u32>) -> Seq<u8> {
    spec_words_to_le_bytes(inv_proj) + spec_words_to_le_bytes(inv_view)
}

/// The per-dispatch inline parameter block: elapsed time (an IEEE-754
/// bit pattern) followed by the current sample count, both little-endian.
pub open spec fn spec_push_constants(time_bits: u32, num_samples: u32) -> Seq<u8> {
    spec_u32_to_le_bytes(time_bits) + spec_u32_to_le_bytes(num_samples)
}

/// Everything the host needs to execute one frame: the dispatch grid
/// covering the drawable area, the inline parameter bytes, and the sample
/// count after this frame completes.
pub struct FrameCommands {
    pub workgroups_x: u32,
    pub workgroups_y: u32,
    pub push_constants: Vec<u8>,
    pub sample_count: u32,
}

/// The renderer's verified state: drawable size and the progressive
/// accumulation counter. Exactly one path resets the counter
/// ([`Renderer::update_camera`]) and exactly one advances it
/// ([`Renderer::render`]).
pub struct Renderer {
    width: u32,
    height: u32,
    num_samples: u32,
}

/// The state change one completed frame makes: the drawable size is kept
/// and the sample counter advances by exactly one.
pub open spec fn render_transition(pre: Renderer, post: Renderer) -> bool {
    &&& post.spec_width() == pre.spec_width()
    &&& post.spec_height() == pre.spec_height()
    &&& post.spec_samples() == pre.spec_samples() + 1
}

impl Renderer {
    /// Drawable width in pixels.
    pub closed spec fn spec_width(&self) -> u32 {
        self.width
    }

    /// Drawable height in pixels.
    pub closed spec fn spec_height(&self) -> u32 {
        self.height
    }

    /// Number of samples accumulated since the last camera change.
    pub closed spec fn spec_samples(&self) -> u32 {
        self.num_samples
    }

    /// Drawable width in pixels.
    pub fn width(&self) -> (r: u32)
        ensures
            r == self.spec_width(),
    {
        self.width
    }

    /// Drawable height in pixels.
    pub fn height(&self) -> (r: u32)
        ensures
            r == self.spec_height(),
    {
        self.height
    }

    /// Number of samples accumulated since the last camera change.
    pub fn samples(&self) -> (r: u32)
        ensures
            r == self.spec_samples(),
    {
        self.num_samples
    }

    /// One-time initialization of the renderer state for a drawable area;
    /// accumulation starts from zero samples.
    pub fn new(width: u32, height: u32) -> (r: Renderer)
        requires
            width >= 1,
            height >= 1,
        ensures
            r.spec_width() == width,
            r.spec_height() == height,
            r.spec_samples() == 0,
    {
        Renderer { width, height, num_samples: 0 }
    }

    /// The drawable area changed: remember the new size. The pipeline is
    /// unaffected and the sample counter keeps its value; only a camera
    /// update resets accumulation.
    pub fn resize(&mut self, width: u32, height: u32)
        requires
            width >= 1,
            height >= 1,
        ensures
            final(self).spec_width() == width,
            final(self).spec_height() == height,
            final(self).spec_samples() == old(self).spec_samples(),
    {
        self.width = width;
        self.height = height;
    }

    /// The view changed: build the camera uniform bytes for upload and
    /// reset the sample counter to zero, so stale samples from the old
    /// view are never blended into the new one. The caller supplies the
    /// already-inverted matrices as 16 column-major 32-bit scalar bit
    /// patterns each.
    pub fn update_camera(&mut self, inverse_view: &[u32; 16], inverse_projection: &[u32; 16]) -> (uniform: Vec<u8>)
        ensures
            final(self).spec_width() == old(self).spec_width(),
            final(self).spec_height() == old(self).spec_height(),
            final(self).spec_samples() == 0,
            uniform@ == spec_camera_uniform(inverse_projection@, inverse_view@),
            uniform@.len() == CAMERA_BUFFER_SIZE,
    {
        let mut uniform = push_words_le(Vec::new(), inverse_projection);
        let uniform = push_words_le(uniform, inverse_view);
        self.num_samples = 0;
        proof {
            lemma_words_to_le_bytes_len(inverse_projection@);
            lemma_words_to_le_bytes_len(inverse_view@);
        }
        uniform
    }

    /// Record one frame: a dispatch grid that covers the whole drawable
    /// area (partial edge tiles included), the inline parameters carrying
    /// the elapsed time and the pre-frame sample count, and the counter
    /// advanced by exactly one. The returned sample count is the value
    /// after this frame.
    pub fn render(&mut self, time_bits: u32) -> (r: FrameCommands)
        requires
            old(self).spec_samples() < u32::MAX,
        ensures
            render_transition(*old(self), *final(self)),
            r.sample_count == final(self).spec_samples(),
            r.workgroups_x == spec_workgroup_count(final(self).spec_width() as int, WORKGROUP_SIZE as int),
            r.workgroups_y == spec_workgroup_count(final(self).spec_height() as int, WORKGROUP_SIZE as int),
            r.push_constants@ == spec_push_constants(time_bits, old(self).spec_samples()),
    {
        let mut push_constants = u32_to_le_bytes(time_bits);
        let mut sample_bytes = u32_to_le_bytes(self.num_samples);
        push_constants.append(&mut sample_bytes);
        let workgroups_x = workgroup_count(self.width, WORKGROUP_SIZE);
        let workgroups_y = workgroup_count(self.height, WORKGROUP_SIZE);
        self.num_samples = self.num_samples + 1;
        FrameCommands {
            workgroups_x,
            workgroups_y,
            push_constants,
            sample_count: self.num_samples,
        }
    }
}

/// Law: across any chain of consecutive frames with no intervening camera
/// update, the sample counter after the last frame equals its value before
/// the first plus the number of frames -- it advances monotonically, with
/// no skips and no resets.
pub proof fn lemma_sample_count_accumulates(states: Seq<Renderer>)
    requires
        states.len() >= 1,
        forall|i: int|
            0 <= i < states.len() - 1 ==> #[trigger] render_transition(states[i], states[i + 1]),
    ensures
        states.last().spec_samples() == states[0].spec_samples() + states.len() - 1,
    decreases states.len(),
{
    if states.len() > 1 {
        let prefix = states.drop_last();
        assert forall|i: int|
            0 <= i < prefix.len() - 1 implies #[trigger] render_transition(
            prefix[i],
            prefix[i + 1],
        ) by {
            assert(render_transition(states[i], states[i + 1]));
        }
        lemma_sample_count_accumulates(prefix);
        let n = states.len() as int;
        assert(render_transition(states[n - 2], states[n - 2 + 1]));
    }
}

/// Law: the dispatch grid covers the drawable area exactly. The
/// workgroups of one dimension reach at least to the last pixel (no
/// edge pixel is dropped), and dropping the last workgroup would leave
/// pixels uncovered (nothing is dispatched beyond one partial tile).
pub proof fn lemma_grid_covers(pixels: int, tile: int)
    requires
        0 <= pixels,
        1 <= tile,
    ensures
        spec_workgroup_count(pixels, tile) * tile >= pixels,
        spec_workgroup_count(pixels, tile) * tile < pixels + tile,
{
    let r = spec_workgroup_count(pixels, tile);
    vstd::arithmetic::div_mod::lemma_fundamental_div_mod(pixels + tile - 1, tile);
    vstd::arithmetic::div_mod::lemma_mod_division_less_than_divisor(pixels + tile - 1, tile);
    assert(pixels + tile - 1 == tile * r + (pixels + tile - 1) % tile);
}

proof fn lemma_words_to_le_bytes_index(ws: Seq<u32>, i: int)
    requires
        0 <= i < ws.len(),
    ensures
        spec_words_to_le_bytes(ws).subrange(4 * i, 4 * i + 4) == spec_u32_to_le_bytes(ws[i]),
    decreases ws.len(),
{
    lemma_auto_spec_u32_to_from_le_bytes();
    lemma_words_to_le_bytes_len(ws.drop_last());
    if i == ws.len() - 1 {
        assert(spec_words_to_le_bytes(ws).subrange(4 * i, 4 * i + 4) =~= spec_u32_to_le_bytes(
            ws.last(),
        ));
    } else {
        lemma_words_to_le_bytes_index(ws.drop_last(), i);
        assert(spec_words_to_le_bytes(ws).subrange(4 * i, 4 * i + 4) =~= spec_words_to_le_bytes(
            ws.drop_last(),
        ).subrange(4 * i, 4 * i + 4));
    }
}

/// Law: the camera uniform is byte-exact. The four little-endian bytes
/// of the inverse projection matrix's word `i` sit at offset `4 * i`,
/// and those of the inverse view matrix's word `i` at offset
/// `64 + 4 * i`: the layout the compute program expects, bit for bit.
pub proof fn lemma_camera_uniform_layout(inv_proj: Seq<u32>, inv_view: Seq<u32>, i: int)
    requires
        inv_proj.len() == 16,
        inv_view.len() == 16,
        0 <= i < 16,
    ensures
        spec_camera_uniform(inv_proj, inv_view).subrange(4 * i, 4 * i + 4)
            == spec_u32_to_le_bytes(inv_proj[i]),
        spec_camera_uniform(inv_proj, inv_view).subrange(64 + 4 * i, 64 + 4 * i + 4)
            == spec_u32_to_le_bytes(inv_view[i]),
{
    lemma_auto_spec_u32_to_from_le_bytes();
    lemma_words_to_le_bytes_len(inv_proj);
    lemma_words_to_le_bytes_len(inv_view);
    lemma_words_to_le_bytes_index(inv_proj, i);
    lemma_words_to_le_bytes_index(inv_view, i);
    assert(spec_camera_uniform(inv_proj, inv_view).subrange(4 * i, 4 * i + 4)
        =~= spec_words_to_le_bytes(inv_proj).subrange(4 * i, 4 * i + 4));
    assert(spec_camera_uniform(inv_proj, inv_view).subrange(64 + 4 * i, 64 + 4 * i + 4)
        =~= spec_words_to_le_bytes(inv_view).subrange(4 * i, 4 * i + 4));
}

/// Number of workgroups that cover `pixels` pixels with `tile`-pixel
/// tiles: rounds up, so edge pixels are never dropped when the size is
/// not an exact multiple of the tile.
pub fn workgroup_count(pixels: u32, tile: u32) -> (r: u32)
    requires
        tile >= 1,
    ensures
        r == spec_workgroup_count(pixels as int, tile as int),
{
    let whole = pixels / tile;
    let r = if pixels % tile == 0 {
        whole
    } else {
        assert(whole < 0x8000_0000) by (nonlinear_arith)
            requires
                tile >= 2,
                pixels <= u32::MAX,
                whole == pixels as int / tile as int,
        ;
        whole + 1
    };
    assert(r == spec_workgroup_count(pixels as int, tile as int)) by (nonlinear_arith)
        requires
            tile >= 1,
            whole == pixels as int / tile as int,
            r == if pixels as int % tile as int == 0 { whole as int } else { whole + 1 },
    ;
    r
}

/// Append the little-endian bytes of each word of `ws`, in order, to `out`.
fn push_words_le(out: Vec<u8>, ws: &[u32; 16]) -> (r: Vec<u8>)
    ensures
        r@ == out@ + spec_words_to_le_bytes(ws@),
{
    let mut r = out;
    let ghost orig = r@;
    for i in 0..16
        invariant
            r@ == orig + spec_words_to_le_bytes(ws@.take(i as int)),
    {
        let mut word_bytes = u32_to_le_bytes(ws[i]);
        r.append(&mut word_bytes);
        proof {
            assert(ws@.take(i + 1).drop_last() =~= ws@.take(i as int));
            assert(ws@.take(i + 1).last() == ws@[i as int]);
        }
    }
    proof {
        assert(ws@.take(16) =~= ws@);
    }
    r
}

} // verus!
