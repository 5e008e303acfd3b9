//! Module grids as they come out of extraction, and their reading as binary grids.

use vstd::prelude::*;

verus! {

/// The smallest and the largest version of a QR symbol.
pub const MIN_VERSION: u32 = 1;

pub const MAX_VERSION: u32 = 40;

/// The side, in modules, of a symbol of the given version.
pub open spec fn side_of_version(version: int) -> int {
    4 * version + 17
}

/// A module grid as a mathematical value: `side * side` samples in row-major
/// order, 0 for a dark module and anything else for a light one.
pub struct GridView {
    pub data: Seq<u8>,
    pub version: int,
    pub side: int,
}

impl GridView {
    /// The version is one of the forty, and side and data fit it.
    pub open spec fn valid(self) -> bool {
        &&& MIN_VERSION <= self.version <= MAX_VERSION
        &&& self.side == side_of_version(self.version)
        &&& self.data.len() == self.side * self.side
    }

    /// The grid read as a binary grid: a module is dark where its sample is 0.
    pub open spec fn binary(self) -> BitsView {
        BitsView { side: self.side, dark: Seq::new(self.data.len(), |i: int| self.data[i] == 0) }
    }
}

/// A binary grid as a mathematical value: `side * side` modules in row-major
/// order, `true` for dark.
pub struct BitsView {
    pub side: int,
    pub dark: Seq<bool>,
}

impl BitsView {
    /// The grid is square and large enough to hold format information.
    pub open spec fn valid(self) -> bool {
        &&& 9 <= self.side
        &&& self.dark.len() == self.side * self.side
    }
}

/// The normalized grid extracted from one candidate region: the samples of a
/// symbol of one of the forty versions, so `4 * version + 17` modules a side.
/// Extraction yields no other grid, and both decode stages take these alone; a
/// square of samples of any other size is no module grid, though
/// `draw_qr_code` draws it.
#[derive(Debug, PartialEq, Eq)]
pub struct ModuleGrid {
    data: Vec<u8>,
    version: u32,
    side: u32,
}

impl View for ModuleGrid {
    type V = GridView;

    closed spec fn view(&self) -> GridView {
        GridView { data: self.data@, version: self.version as int, side: self.side as int }
    }
}

impl ModuleGrid {
    /// Holds of every grid that exists.
    #[verifier::type_invariant]
    pub open spec fn well_formed(self) -> bool {
        self@.valid()
    }

    /// A grid of the given version from its samples, if the version exists and
    /// there are as many samples as a symbol of that version has modules.
    pub fn new(data: Vec<u8>, version: u32) -> (grid: Option<ModuleGrid>)
        ensures
            grid is Some <==> (MIN_VERSION <= version <= MAX_VERSION && data@.len()
                == side_of_version(version as int) * side_of_version(version as int)),
            grid matches Some(g) ==> g@ == (GridView {
                data: data@,
                version: version as int,
                side: side_of_version(version as int),
            }),
    {
        if version < MIN_VERSION || version > MAX_VERSION {
            return None;
        }
        let side: u32 = 4 * version + 17;
        assert(side * side <= 177 * 177) by (nonlinear_arith)
            requires
                0 <= side <= 177,
        ;
        let modules: usize = (side as usize) * (side as usize);
        assert(modules == side_of_version(version as int) * side_of_version(version as int))
            by (nonlinear_arith)
            requires
                modules == side * side,
                side == 4 * version + 17,
        ;
        if data.len() != modules {
            return None;
        }
        Some(ModuleGrid { data, version, side })
    }

    /// The version of the symbol.
    pub fn version(&self) -> (version: u32)
        ensures
            version == self@.version,
            self@.valid(),
    {
        proof {
            use_type_invariant(self);
        }
        self.version
    }

    /// The side of the grid, in modules.
    pub fn side(&self) -> (side: u32)
        ensures
            side == self@.side,
            self@.valid(),
    {
        proof {
            use_type_invariant(self);
        }
        self.side
    }

    /// The samples, row by row.
    pub fn data(&self) -> (data: &Vec<u8>)
        ensures
            data@ == self@.data,
            self@.valid(),
    {
        proof {
            use_type_invariant(self);
        }
        &self.data
    }

    /// A copy of the grid.
    pub fn duplicate(&self) -> (copy: ModuleGrid)
        ensures
            copy@ == self@,
    {
        proof {
            use_type_invariant(self);
        }
        let data = self.data.clone();
        assert(data@ =~= self.data@);
        ModuleGrid { data, version: self.version, side: self.side }
    }

    /// Reads the grid as a binary grid, module for module.
    pub fn to_binary(&self) -> (bits: BinaryGrid)
        ensures
            bits@ == self@.binary(),
    {
        proof {
            use_type_invariant(self);
        }
        let mut dark: Vec<bool> = Vec::new();
        let mut i: usize = 0;
        while i < self.data.len()
            invariant
                i <= self.data.len(),
                dark@.len() == i,
                forall|k: int| 0 <= k < i ==> dark@[k] == (self.data@[k] == 0),
            decreases self.data.len() - i,
        {
            dark.push(self.data[i] == 0);
            i += 1;
        }
        assert(dark@ =~= self@.binary().dark);
        BinaryGrid { side: self.side as usize, dark }
    }
}

/// A square grid of dark and light modules.
#[derive(Debug, PartialEq, Eq)]
pub struct BinaryGrid {
    side: usize,
    dark: Vec<bool>,
}

impl View for BinaryGrid {
    type V = BitsView;

    closed spec fn view(&self) -> BitsView {
        BitsView { side: self.side as int, dark: self.dark@ }
    }
}

impl BinaryGrid {
    /// Holds of every grid that exists.
    #[verifier::type_invariant]
    pub open spec fn well_formed(self) -> bool {
        self@.valid()
    }

    /// The side of the grid, in modules.
    pub fn side(&self) -> (side: usize)
        ensures
            side == self@.side,
            self@.valid(),
    {
        proof {
            use_type_invariant(self);
        }
        self.side
    }

    /// Whether the module in column `x` of row `y` is dark.
    pub fn is_dark(&self, x: usize, y: usize) -> (dark: bool)
        requires
            x < self@.side,
            y < self@.side,
        ensures
            dark == self@.dark[y * self@.side + x],
    {
        let modules = self.dark.len();
        proof {
            use_type_invariant(self);
            let side = self.side as int;
            assert(modules == side * side);
            assert(0 <= y * side && y * side + x < side * side) by (nonlinear_arith)
                requires
                    0 <= x < side,
                    0 <= y < side,
            ;
        }
        self.dark[y * self.side + x]
    }
}

/// What a finder pattern drawn with its corner at (`row`, `col`) puts at
/// (`r`, `c`): a dark 3x3 core, a light ring, a dark ring, and a light
/// separator along its lower and right edge; nothing outside those.
pub open spec fn finder_sample(row: int, col: int, r: int, c: int) -> Option<u8> {
    if row + 2 <= r < row + 5 && col + 2 <= c < col + 5 {
        Some(0u8)
    } else if row + 1 <= r < row + 6 && col + 1 <= c < col + 6 {
        Some(255u8)
    } else if row <= r < row + 7 && col <= c < col + 7 {
        Some(0u8)
    } else if row <= r < row + 8 && col <= c < col + 8 {
        Some(255u8)
    } else {
        None
    }
}

/// The sample at row `r`, column `c` of a square grid of side `side` once the
/// three finder patterns are drawn afresh over its samples: first the one at the
/// top left, then the one at the bottom left, then the one at the top right.
/// Where patterns overlap, as they do on a small grid, the one drawn later
/// shows.
pub open spec fn drawn_sample(data: Seq<u8>, side: int, r: int, c: int) -> u8 {
    if finder_sample(0, side - 7, r, c) is Some {
        finder_sample(0, side - 7, r, c)->0
    } else if finder_sample(side - 7, 0, r, c) is Some {
        finder_sample(side - 7, 0, r, c)->0
    } else if finder_sample(0, 0, r, c) is Some {
        finder_sample(0, 0, r, c)->0
    } else {
        data[r * side + c]
    }
}

/// The grey level of the picture at row `row`, column `col`: the drawn grid,
/// with a light border one module wide around it.
pub open spec fn picture_sample(data: Seq<u8>, side: int, row: int, col: int) -> u8 {
    if 1 <= row <= side && 1 <= col <= side {
        drawn_sample(data, side, row - 1, col - 1)
    } else {
        255u8
    }
}

/// A picture in RGB, three bytes to the pixel, row by row.
#[derive(Debug, PartialEq, Eq)]
pub struct Picture {
    pub width: u32,
    pub height: u32,
    pub rgb: Vec<u8>,
}

impl Picture {
    /// Whether this is the picture of the square grid of side `side` with the
    /// samples `data`: two modules wider and higher than the grid, every pixel
    /// grey at the level `picture_sample` gives.
    pub open spec fn shows(self, data: Seq<u8>, side: int) -> bool {
        &&& self.width == side + 2
        &&& self.height == side + 2
        &&& self.rgb@.len() == 3 * (self.width * self.height)
        &&& forall|row: int, col: int, channel: int|
            0 <= row < self.height && 0 <= col < self.width && 0 <= channel < 3
                ==> #[trigger] self.rgb@[3 * (row * self.width + col) + channel] == picture_sample(
                data,
                side,
                row,
                col,
            )
    }
}

/// The index of (`row`, `col`) grows with the row, and within a row with the
/// column.
proof fn lemma_row_major(width: int, row: int, col: int, other_row: int, other_col: int)
    requires
        0 <= col < width,
        0 <= other_col < width,
        0 <= row,
        0 <= other_row,
        row < other_row || (row == other_row && col < other_col),
    ensures
        row * width + col < other_row * width + other_col,
        0 <= row * width + col,
{
    assert(0 <= row * width) by (nonlinear_arith)
        requires
            0 <= row,
            0 <= width,
    ;
    if row < other_row {
        assert((row + 1) * width <= other_row * width) by (nonlinear_arith)
            requires
                row + 1 <= other_row,
                0 <= width,
        ;
        assert((row + 1) * width == row * width + width) by (nonlinear_arith);
    }
}

/// What a finder pattern with its corner at (`row`, `col`) puts at (`r`, `c`).
fn finder(row: u32, col: u32, r: u32, c: u32) -> (sample: Option<u8>)
    requires
        row + 8 <= u32::MAX,
        col + 8 <= u32::MAX,
    ensures
        sample == finder_sample(row as int, col as int, r as int, c as int),
{
    if row + 2 <= r && r < row + 5 && col + 2 <= c && c < col + 5 {
        Some(0)
    } else if row + 1 <= r && r < row + 6 && col + 1 <= c && c < col + 6 {
        Some(255)
    } else if row <= r && r < row + 7 && col <= c && c < col + 7 {
        Some(0)
    } else if row <= r && r < row + 8 && col <= c && c < col + 8 {
        Some(255)
    } else {
        None
    }
}

/// The sample at row `r`, column `c` with the finder patterns drawn afresh.
fn sample_drawn(data: &Vec<u8>, side: u32, r: u32, c: u32) -> (sample: u8)
    requires
        7 <= side,
        side + 2 <= u32::MAX,
        data@.len() == side * side,
        r < side,
        c < side,
    ensures
        sample == drawn_sample(data@, side as int, r as int, c as int),
{
    let far: u32 = side - 7;
    if let Some(sample) = finder(0, far, r, c) {
        sample
    } else if let Some(sample) = finder(far, 0, r, c) {
        sample
    } else if let Some(sample) = finder(0, 0, r, c) {
        sample
    } else {
        let modules = data.len();
        proof {
            lemma_row_major(side as int, r as int, c as int, side as int, 0);
            assert(modules == side * side);
        }
        data[(r as usize) * (side as usize) + (c as usize)]
    }
}

/// Draws a square grid of samples for the eye: the samples as grey levels, the
/// three finder patterns drawn afresh over them, and a light border around the
/// whole. The grid has room for a finder pattern, and `data` holds its `side *
/// side` samples row by row.
pub fn draw_qr_code(data: &Vec<u8>, side: u32) -> (picture: Picture)
    requires
        7 <= side,
        side + 2 <= u32::MAX,
        data@.len() == side * side,
    ensures
        picture.shows(data@, side as int),
{
    let width: u32 = side + 2;
    let mut rgb: Vec<u8> = Vec::new();
    let mut row: u32 = 0;
    while row < width
        invariant
            7 <= side,
            data@.len() == side * side,
            width == side + 2,
            row <= width,
            rgb@.len() == 3 * (row * width),
            forall|r: int, c: int, channel: int|
                0 <= r < row && 0 <= c < width && 0 <= channel < 3 ==> #[trigger] rgb@[3 * (r
                    * width + c) + channel] == picture_sample(data@, side as int, r, c),
        decreases width - row,
    {
        let mut col: u32 = 0;
        while col < width
            invariant
                7 <= side,
                data@.len() == side * side,
                width == side + 2,
                row < width,
                col <= width,
                rgb@.len() == 3 * (row * width + col),
                forall|r: int, c: int, channel: int|
                    0 <= r && 0 <= c < width && 0 <= channel < 3 && (r < row || (r == row && c
                        < col)) ==> #[trigger] rgb@[3 * (r * width + c) + channel]
                        == picture_sample(data@, side as int, r, c),
            decreases width - col,
        {
            let sample = if 1 <= row && row <= side && 1 <= col && col <= side {
                sample_drawn(data, side, row - 1, col - 1)
            } else {
                255u8
            };
            let ghost before = rgb@;
            rgb.push(sample);
            rgb.push(sample);
            rgb.push(sample);
            proof {
                assert forall|r: int, c: int, channel: int|
                    0 <= r && 0 <= c < width && 0 <= channel < 3 && (r < row || (r == row && c
                        < col + 1)) implies #[trigger] rgb@[3 * (r * width + c) + channel]
                    == picture_sample(data@, side as int, r, c) by {
                    if r == row && c == col {
                    } else {
                        lemma_row_major(width as int, r, c, row as int, col as int);
                        assert(rgb@[3 * (r * width + c) + channel] == before[3 * (r * width + c)
                            + channel]);
                    }
                }
            }
            col += 1;
        }
        proof {
            assert((row + 1) * width == row * width + width) by (nonlinear_arith);
        }
        row += 1;
    }
    Picture { width, height: width, rgb }
}

impl ModuleGrid {
    /// Draws the grid for the eye, as `draw_qr_code` draws its samples.
    pub fn draw_qr_code(&self) -> (picture: Picture)
        ensures
            picture.shows(self@.data, self@.side),
    {
        proof {
            use_type_invariant(self);
        }
        draw_qr_code(&self.data, self.side)
    }
}

} // verus!
