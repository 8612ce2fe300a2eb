//! The parameters of the shaders, laid out as the shaders read them: one four-byte word after
//! the other.
use crate::geometry::OverlayRect;
use crate::geometry::PhysicalSize;
use crate::scene::aspect_terms;
use crate::scene::at_least_one;
use crate::scene::DemoScene;
use vstd::prelude::*;

verus! {

/// The bytes of the parameters that the overlay is drawn with.
pub const QUAD_PARAMS_SIZE: usize = 32;

/// The bytes of the parameters that the scene is drawn with.
pub const SCENE_PARAMS_SIZE: usize = 16;

/// The corners of the two triangles that make up the overlay.
pub const QUAD_VERTICES: u32 = 6;

/// The corners of the twelve triangles that make up the cube.
pub const SCENE_VERTICES: u32 = 36;

/// The four bytes of a number.
pub type Word = [u8; 4];

/// The parameters that the overlay is drawn with.
#[derive(Clone, Copy, Debug, PartialEq, Eq)]
pub struct QuadParams {
    /// The upper left corner of the overlay.
    pub origin: [Word; 2],
    /// The size of the overlay.
    pub size: [Word; 2],
    /// The size of the surface.
    pub surface_size: [Word; 2],
    /// What fills the parameters up to a multiple of four words.
    pub padding: [Word; 2],
}

/// The parameters that the scene is drawn with.
#[derive(Clone, Copy, Debug, PartialEq, Eq)]
pub struct SceneParams {
    /// How far the cube has turned.
    pub angle: Word,
    /// The width of the picture divided by its height.
    pub aspect: Word,
    /// How much of the second palette is in the colors.
    pub palette_mix: Word,
    /// What fills the parameters up to a multiple of four words.
    pub padding: Word,
}

/// `bytes` is the words one after the other.
pub open spec fn laid_out(words: Seq<Word>, bytes: Seq<u8>) -> bool {
    &&& bytes.len() == 4 * words.len()
    &&& forall|i: int|
        0 <= i < bytes.len() ==> #[trigger] bytes[i] == words[i / 4]@[i % 4]
}

impl QuadParams {
    /// The words in the order in which the shader reads them.
    pub open spec fn words(self) -> Seq<Word> {
        seq![
            self.origin@[0],
            self.origin@[1],
            self.size@[0],
            self.size@[1],
            self.surface_size@[0],
            self.surface_size@[1],
            self.padding@[0],
            self.padding@[1],
        ]
    }

    /// The parameters as the shader reads them.
    pub fn into_bytes(self) -> (bytes: [u8; 32])
        ensures
            laid_out(self.words(), bytes@),
            bytes@.len() == QUAD_PARAMS_SIZE,
    {
        let values: [Word; 8] = [
            self.origin[0],
            self.origin[1],
            self.size[0],
            self.size[1],
            self.surface_size[0],
            self.surface_size[1],
            self.padding[0],
            self.padding[1],
        ];
        let mut bytes: [u8; 32] = [0;32];
        let mut i: usize = 0;
        while i < 32
            invariant
                i <= 32,
                values@ == self.words(),
                forall|j: int| 0 <= j < i ==> #[trigger] bytes@[j] == values@[j / 4]@[j % 4],
            decreases 32 - i,
        {
            bytes[i] = values[i / 4][i % 4];
            i += 1;
        }
        bytes
    }
}

impl SceneParams {
    /// The words in the order in which the shader reads them.
    pub open spec fn words(self) -> Seq<Word> {
        seq![self.angle, self.aspect, self.palette_mix, self.padding]
    }

    /// The parameters as the shader reads them.
    pub fn into_bytes(self) -> (bytes: [u8; 16])
        ensures
            laid_out(self.words(), bytes@),
            bytes@.len() == SCENE_PARAMS_SIZE,
    {
        let values: [Word; 4] = [self.angle, self.aspect, self.palette_mix, self.padding];
        let mut bytes: [u8; 16] = [0;16];
        let mut i: usize = 0;
        while i < 16
            invariant
                i <= 16,
                values@ == self.words(),
                forall|j: int| 0 <= j < i ==> #[trigger] bytes@[j] == values@[j / 4]@[j % 4],
            decreases 16 - i,
        {
            bytes[i] = values[i / 4][i % 4];
            i += 1;
        }
        bytes
    }
}

/// The word of the number zero.
pub const ZERO_WORD: Word = [0, 0, 0, 0];

/// The parameters to lay the user interface over a surface of this size with, or none if the
/// surface has no pixel. `position_word` and `length_word` say how the shader is told a
/// coordinate and a number of pixels.
pub fn overlay_params<T: Copy>(
    overlay: OverlayRect<T>,
    surface_size: PhysicalSize,
    position_word: impl Fn(T) -> Word,
    length_word: impl Fn(u32) -> Word,
) -> (params: Option<QuadParams>)
    requires
        surface_size.drawable() ==> {
            &&& call_requires(position_word, (overlay.origin.x,))
            &&& call_requires(position_word, (overlay.origin.y,))
            &&& call_requires(length_word, (overlay.size.width,))
            &&& call_requires(length_word, (overlay.size.height,))
            &&& call_requires(length_word, (surface_size.width,))
            &&& call_requires(length_word, (surface_size.height,))
        },
    ensures
        params is Some <==> surface_size.drawable(),
        params matches Some(params) ==> {
            &&& call_ensures(position_word, (overlay.origin.x,), params.origin@[0])
            &&& call_ensures(position_word, (overlay.origin.y,), params.origin@[1])
            &&& call_ensures(length_word, (overlay.size.width,), params.size@[0])
            &&& call_ensures(length_word, (overlay.size.height,), params.size@[1])
            &&& call_ensures(length_word, (surface_size.width,), params.surface_size@[0])
            &&& call_ensures(length_word, (surface_size.height,), params.surface_size@[1])
            &&& params.padding@[0] == ZERO_WORD
            &&& params.padding@[1] == ZERO_WORD
        },
{
    if surface_size.width == 0 || surface_size.height == 0 {
        return None;
    }
    Some(
        QuadParams {
            origin: [position_word(overlay.origin.x), position_word(overlay.origin.y)],
            size: [length_word(overlay.size.width), length_word(overlay.size.height)],
            surface_size: [length_word(surface_size.width), length_word(surface_size.height)],
            padding: [ZERO_WORD, ZERO_WORD],
        },
    )
}

/// The parameters to draw the scene with in a picture of this size. `word` says how the
/// shader is told a number, and `aspect_word` how it is told the quotient of a width and a
/// height.
pub fn scene_params<T: Copy>(
    scene: DemoScene<T>,
    size: PhysicalSize,
    word: impl Fn(T) -> Word,
    aspect_word: impl Fn(u32, u32) -> Word,
) -> (params: SceneParams)
    requires
        call_requires(word, (scene.angle,)),
        call_requires(word, (scene.palette_mix,)),
        call_requires(aspect_word, (size.width, at_least_one(size.height))),
    ensures
        call_ensures(word, (scene.angle,), params.angle),
        call_ensures(aspect_word, (size.width, at_least_one(size.height)), params.aspect),
        call_ensures(word, (scene.palette_mix,), params.palette_mix),
        params.padding == ZERO_WORD,
{
    let (width, height) = aspect_terms(size);
    SceneParams {
        angle: word(scene.angle),
        aspect: aspect_word(width, height),
        palette_mix: word(scene.palette_mix),
        padding: ZERO_WORD,
    }
}

/// What the shader reads determines the parameters: two that are laid out alike are alike.
pub proof fn law_quad_bytes_determine_params(left: QuadParams, right: QuadParams, bytes: Seq<u8>)
    requires
        laid_out(left.words(), bytes),
        laid_out(right.words(), bytes),
    ensures
        left == right,
{
    lemma_bytes_determine_words(left.words(), right.words(), bytes);
    let words = left.words();
    assert(left.origin@ =~= seq![words[0], words[1]] && left.origin@ =~= right.origin@);
    assert(left.size@ =~= seq![words[2], words[3]] && left.size@ =~= right.size@);
    assert(left.surface_size@ =~= seq![words[4], words[5]] && left.surface_size@
        =~= right.surface_size@);
    assert(left.padding@ =~= seq![words[6], words[7]] && left.padding@ =~= right.padding@);
    assert(left.origin == right.origin && left.size == right.size);
    assert(left.surface_size == right.surface_size && left.padding == right.padding);
}

/// What the shader reads determines the parameters: two that are laid out alike are alike.
pub proof fn law_scene_bytes_determine_params(
    left: SceneParams,
    right: SceneParams,
    bytes: Seq<u8>,
)
    requires
        laid_out(left.words(), bytes),
        laid_out(right.words(), bytes),
    ensures
        left == right,
{
    lemma_bytes_determine_words(left.words(), right.words(), bytes);
    assert(left.angle == left.words()[0]);
    assert(left.aspect == left.words()[1]);
    assert(left.palette_mix == left.words()[2]);
    assert(left.padding == left.words()[3]);
}

proof fn lemma_bytes_determine_words(left: Seq<Word>, right: Seq<Word>, bytes: Seq<u8>)
    requires
        laid_out(left, bytes),
        laid_out(right, bytes),
    ensures
        left =~= right,
{
    assert forall|i: int| 0 <= i < left.len() implies left[i] == right[i] by {
        assert forall|j: int| 0 <= j < 4 implies left[i]@[j] == right[i]@[j] by {
            let k = 4 * i + j;
            assert(k / 4 == i && k % 4 == j);
            assert(bytes[k] == left[k / 4]@[k % 4]);
        }
        assert(left[i]@ =~= right[i]@);
    }
}

/// The shader reads the overlay's origin from the first eight bytes, its size from the next
/// eight, the size of the surface from the eight after them and what fills them up from the
/// last, each as its two words, the horizontal one first, and each word as its four bytes.
pub proof fn law_quad_bytes_are_read_back(params: QuadParams, bytes: [u8; 32], byte: int)
    requires
        call_ensures(QuadParams::into_bytes, (params,), bytes),
        0 <= byte < 4,
    ensures
        bytes@.len() == QUAD_PARAMS_SIZE,
        bytes@[byte] == params.origin@[0]@[byte],
        bytes@[4 + byte] == params.origin@[1]@[byte],
        bytes@[8 + byte] == params.size@[0]@[byte],
        bytes@[12 + byte] == params.size@[1]@[byte],
        bytes@[16 + byte] == params.surface_size@[0]@[byte],
        bytes@[20 + byte] == params.surface_size@[1]@[byte],
        bytes@[24 + byte] == params.padding@[0]@[byte],
        bytes@[28 + byte] == params.padding@[1]@[byte],
{
    lemma_word_is_read_back(params.words(), bytes@, 0, byte);
    lemma_word_is_read_back(params.words(), bytes@, 1, byte);
    lemma_word_is_read_back(params.words(), bytes@, 2, byte);
    lemma_word_is_read_back(params.words(), bytes@, 3, byte);
    lemma_word_is_read_back(params.words(), bytes@, 4, byte);
    lemma_word_is_read_back(params.words(), bytes@, 5, byte);
    lemma_word_is_read_back(params.words(), bytes@, 6, byte);
    lemma_word_is_read_back(params.words(), bytes@, 7, byte);
}

proof fn lemma_word_is_read_back(words: Seq<Word>, bytes: Seq<u8>, word: int, byte: int)
    requires
        laid_out(words, bytes),
        0 <= word < words.len(),
        0 <= byte < 4,
    ensures
        bytes[4 * word + byte] == words[word]@[byte],
{
    let i = 4 * word + byte;
    assert(i / 4 == word && i % 4 == byte);
    assert(bytes[i] == words[i / 4]@[i % 4]);
}

/// The shader reads the angle, the aspect ratio, the palette and what fills them up from four
/// bytes each, in this order.
pub proof fn law_scene_bytes_are_read_back(params: SceneParams, bytes: [u8; 16], byte: int)
    requires
        call_ensures(SceneParams::into_bytes, (params,), bytes),
        0 <= byte < 4,
    ensures
        bytes@.len() == SCENE_PARAMS_SIZE,
        bytes@[byte] == params.angle@[byte],
        bytes@[4 + byte] == params.aspect@[byte],
        bytes@[8 + byte] == params.palette_mix@[byte],
        bytes@[12 + byte] == params.padding@[byte],
{
    lemma_word_is_read_back(params.words(), bytes@, 0, byte);
    lemma_word_is_read_back(params.words(), bytes@, 1, byte);
    lemma_word_is_read_back(params.words(), bytes@, 2, byte);
    lemma_word_is_read_back(params.words(), bytes@, 3, byte);
}

/// Where a position and a length are each told as one word, the overlay is drawn where and as
/// large as it lies on the surface, each coordinate and length in its own place, if and only if
/// the surface has a pixel; what fills the words up is zero.
pub proof fn law_overlay_is_drawn_where_it_lies<
    T: Copy,
    F: Fn(T) -> Word,
    G: Fn(u32) -> Word,
>(
    overlay: OverlayRect<T>,
    surface_size: PhysicalSize,
    position_word: F,
    length_word: G,
    told_position: spec_fn(T) -> Word,
    told_length: spec_fn(u32) -> Word,
    params: Option<QuadParams>,
)
    requires
        forall|position: T, word: Word| #[trigger]
            call_ensures(position_word, (position,), word) ==> word == told_position(position),
        forall|length: u32, word: Word| #[trigger]
            call_ensures(length_word, (length,), word) ==> word == told_length(length),
        call_ensures(
            overlay_params,
            (overlay, surface_size, position_word, length_word),
            params,
        ),
    ensures
        params is None <==> surface_size.width == 0 || surface_size.height == 0,
        params matches Some(params) ==> {
            &&& params.origin@ =~= seq![
                told_position(overlay.origin.x),
                told_position(overlay.origin.y),
            ]
            &&& params.size@ =~= seq![
                told_length(overlay.size.width),
                told_length(overlay.size.height),
            ]
            &&& params.surface_size@ =~= seq![
                told_length(surface_size.width),
                told_length(surface_size.height),
            ]
            &&& forall|word: int, byte: int|
                0 <= word < 2 && 0 <= byte < 4 ==> #[trigger] params.padding@[word]@[byte] == 0
        },
{
}

/// Where a number is told as one word, the scene is drawn with its angle and its palette and with
/// the quotient of the picture's width and height, with a height of one in place of none; what
/// fills the words up is zero.
pub proof fn law_scene_is_drawn_as_it_is<T: Copy, F: Fn(T) -> Word, G: Fn(u32, u32) -> Word>(
    scene: DemoScene<T>,
    size: PhysicalSize,
    word: F,
    aspect_word: G,
    told: spec_fn(T) -> Word,
    told_aspect: spec_fn(u32, u32) -> Word,
    params: SceneParams,
)
    requires
        forall|number: T, told_word: Word| #[trigger]
            call_ensures(word, (number,), told_word) ==> told_word == told(number),
        forall|width: u32, height: u32, told_word: Word| #[trigger]
            call_ensures(aspect_word, (width, height), told_word) ==> told_word == told_aspect(
                width,
                height,
            ),
        call_ensures(scene_params, (scene, size, word, aspect_word), params),
    ensures
        params.angle == told(scene.angle),
        params.palette_mix == told(scene.palette_mix),
        size.height > 0 ==> params.aspect == told_aspect(size.width, size.height),
        size.height == 0 ==> params.aspect == told_aspect(size.width, 1),
        forall|byte: int| 0 <= byte < 4 ==> #[trigger] params.padding@[byte] == 0,
{
}

/// The overlay is made up of two triangles, and the cube of two for each of its six faces, with
/// three corners each.
pub proof fn law_corners_make_up_triangles()
    ensures
        QUAD_VERTICES == 2 * 3,
        SCENE_VERTICES == 6 * 2 * 3,
{
}

} // verus!
