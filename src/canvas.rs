use vstd::prelude::*;

verus! {

/// `x * height + y` is the place of pixel `(x, y)` in a column-major buffer of
/// `width * height` pixels.
proof fn lemma_pixel_index(x: int, y: int, width: int, height: int)
    requires
        0 <= x < width,
        0 <= y < height,
    ensures
        0 <= x * height + y < width * height,
{
    assert(0 <= x * height + y < width * height) by (nonlinear_arith)
        requires
            0 <= x < width,
            0 <= y < height,
    ;
}

/// The pixel `(x, y)` of a column-major buffer whose columns hold `height` pixels.
spec fn at_column_major<T>(s: Seq<T>, height: int, x: int, y: int) -> T {
    s[x * height + y]
}

/// A `width` by `height` grid of pixels of type `T`; pixel `(0, 0)` is the top
/// left corner.
pub struct Canvas<T> {
    width: usize,
    height: usize,
    pixels: Vec<T>,
}

impl<T> Canvas<T> {
    /// The buffer holds exactly one pixel per place of the grid.
    pub closed spec fn wf(&self) -> bool {
        self.pixels.len() == self.width * self.height
    }

    /// Number of pixels in a row.
    pub closed spec fn spec_width(&self) -> nat {
        self.width as nat
    }

    /// Number of pixels in a column.
    pub closed spec fn spec_height(&self) -> nat {
        self.height as nat
    }

    /// The pixel in column `x` and row `y`.
    pub closed spec fn spec_pixel(&self, x: int, y: int) -> T {
        self.pixels@[x * self.height + y]
    }

    /// Number of pixels in a row.
    pub fn width(&self) -> (r: usize)
        requires
            self.wf(),
        ensures
            r == self.spec_width(),
            r * self.spec_height() <= usize::MAX,
    {
        self.width
    }

    /// Number of pixels in a column.
    pub fn height(&self) -> (r: usize)
        ensures
            r == self.spec_height(),
    {
        self.height
    }

    /// The pixel in column `x` and row `y`.
    pub fn pixel_at(&self, x: usize, y: usize) -> (r: &T)
        requires
            self.wf(),
            x < self.spec_width(),
            y < self.spec_height(),
        ensures
            *r == self.spec_pixel(x as int, y as int),
    {
        proof {
            lemma_pixel_index(x as int, y as int, self.width as int, self.height as int);
        }
        &self.pixels[x * self.height + y]
    }

    /// Sets the pixel in column `x` and row `y` to `value`, and leaves every
    /// other pixel as it was.
    pub fn write_pixel(&mut self, x: usize, y: usize, value: T)
        requires
            old(self).wf(),
            x < old(self).spec_width(),
            y < old(self).spec_height(),
        ensures
            final(self).wf(),
            final(self).spec_width() == old(self).spec_width(),
            final(self).spec_height() == old(self).spec_height(),
            final(self).spec_pixel(x as int, y as int) == value,
            forall|i: int, j: int|
                0 <= i < old(self).spec_width() && 0 <= j < old(self).spec_height() && (i != x || j != y)
                    ==> final(self).spec_pixel(i, j) == old(self).spec_pixel(i, j),
    {
        proof {
            lemma_pixel_index(x as int, y as int, self.width as int, self.height as int);
        }
        let index = x * self.height + y;
        self.pixels.set(index, value);
        proof {
            assert forall|i: int, j: int|
                0 <= i < old(self).spec_width() && 0 <= j < old(self).spec_height() && (i != x || j != y)
                implies final(self).spec_pixel(i, j) == old(self).spec_pixel(i, j) by {
                let h = self.height as int;
                lemma_pixel_index(i, j, self.width as int, h);
                if i < x {
                    assert(i * h + j < x * h) by (nonlinear_arith)
                        requires i < x, 0 <= j < h;
                } else if i > x {
                    assert(x * h + y < i * h) by (nonlinear_arith)
                        requires x < i, 0 <= y < h;
                }
            }
        }
    }
}

impl<T> Canvas<T> {
    /// A canvas whose pixel `(x, y)` is `shade(x, y)`; `shade` is called once
    /// for each pixel, and no pixel depends on another.
    pub fn from_fn<F: Fn(usize, usize) -> T>(width: usize, height: usize, shade: F) -> (r: Self)
        requires
            width * height <= usize::MAX,
            forall|x: usize, y: usize| x < width && y < height ==> shade.requires((x, y)),
        ensures
            r.wf(),
            r.spec_width() == width,
            r.spec_height() == height,
            forall|x: int, y: int|
                0 <= x < width && 0 <= y < height ==> shade.ensures((x as usize, y as usize), r.spec_pixel(x, y)),
    {
        let mut pixels: Vec<T> = Vec::with_capacity(width * height);
        let mut x: usize = 0;
        while x < width
            invariant
                x <= width,
                width * height <= usize::MAX,
                forall|x: usize, y: usize| x < width && y < height ==> shade.requires((x, y)),
                pixels@.len() == x * height,
                forall|i: int, j: int|
                    0 <= i < x && 0 <= j < height ==> shade.ensures((i as usize, j as usize), #[trigger] at_column_major(pixels@, height as int, i, j)),
            decreases width - x,
        {
            let mut y: usize = 0;
            while y < height
                invariant
                    x < width,
                    y <= height,
                    width * height <= usize::MAX,
                    forall|x: usize, y: usize| x < width && y < height ==> shade.requires((x, y)),
                    pixels@.len() == x * height + y,
                    forall|i: int, j: int|
                        0 <= i < x && 0 <= j < height ==> shade.ensures((i as usize, j as usize), #[trigger] at_column_major(pixels@, height as int, i, j)),
                    forall|j: int| 0 <= j < y ==> shade.ensures((x, j as usize), #[trigger] at_column_major(pixels@, height as int, x as int, j)),
                decreases height - y,
            {
                proof {
                    lemma_pixel_index(x as int, y as int, width as int, height as int);
                }
                let value = shade(x, y);
                let ghost before = pixels@;
                pixels.push(value);
                proof {
                    let h = height as int;
                    assert forall|i: int, j: int| 0 <= i < x && 0 <= j < height
                        implies shade.ensures((i as usize, j as usize), #[trigger] at_column_major(pixels@, h, i, j)) by {
                        assert(i * h + j < x * h) by (nonlinear_arith)
                            requires i < x, 0 <= j < h;
                        assert(at_column_major(before, h, i, j) == at_column_major(pixels@, h, i, j));
                    }
                    assert forall|j: int| 0 <= j < y + 1
                        implies shade.ensures((x, j as usize), #[trigger] at_column_major(pixels@, h, x as int, j)) by {
                        if j < y {
                            assert(at_column_major(before, h, x as int, j) == at_column_major(pixels@, h, x as int, j));
                        }
                    }
                }
                y = y + 1;
            }
            proof {
                assert(pixels@.len() == (x + 1) * height) by (nonlinear_arith)
                    requires pixels@.len() == x * height + height;
                assert forall|i: int, j: int|
                    0 <= i < x + 1 && 0 <= j < height implies shade.ensures((i as usize, j as usize), #[trigger] at_column_major(pixels@, height as int, i, j)) by {
                    if i == x {
                        assert(shade.ensures((x, j as usize), at_column_major(pixels@, height as int, x as int, j)));
                    }
                }
            }
            x = x + 1;
        }
        let r = Canvas { width, height, pixels };
        proof {
            assert forall|x: int, y: int| 0 <= x < width && 0 <= y < height
                implies shade.ensures((x as usize, y as usize), r.spec_pixel(x, y)) by {
                assert(shade.ensures((x as usize, y as usize), at_column_major(r.pixels@, height as int, x, y)));
            }
        }
        r
    }
}

/// Two canvases of one size whose pixels both come from the same shading
/// function, where that function's result depends on the pixel's coordinates
/// alone, hold the same pixels: building a canvas adds no state of its own.
pub proof fn lemma_same_shading_same_pixels<T, F: Fn(usize, usize) -> T>(shade: F, a: Canvas<T>, b: Canvas<T>)
    requires
        forall|p: (usize, usize), r1: T, r2: T| shade.ensures(p, r1) && shade.ensures(p, r2) ==> r1 == r2,
        a.spec_width() == b.spec_width(),
        a.spec_height() == b.spec_height(),
        forall|x: int, y: int|
            0 <= x < a.spec_width() && 0 <= y < a.spec_height() ==> shade.ensures((x as usize, y as usize), a.spec_pixel(x, y)),
        forall|x: int, y: int|
            0 <= x < b.spec_width() && 0 <= y < b.spec_height() ==> shade.ensures((x as usize, y as usize), b.spec_pixel(x, y)),
    ensures
        forall|x: int, y: int|
            0 <= x < a.spec_width() && 0 <= y < a.spec_height() ==> a.spec_pixel(x, y) == b.spec_pixel(x, y),
{
    assert forall|x: int, y: int| 0 <= x < a.spec_width() && 0 <= y < a.spec_height()
        implies a.spec_pixel(x, y) == b.spec_pixel(x, y) by {
        assert(shade.ensures((x as usize, y as usize), a.spec_pixel(x, y)));
        assert(shade.ensures((x as usize, y as usize), b.spec_pixel(x, y)));
    }
}

impl<T: Copy> Canvas<T> {
    /// A canvas whose pixels all hold `fill`.
    pub fn new(width: usize, height: usize, fill: T) -> (r: Self)
        requires
            width * height <= usize::MAX,
        ensures
            r.wf(),
            r.spec_width() == width,
            r.spec_height() == height,
            forall|x: int, y: int| 0 <= x < width && 0 <= y < height ==> r.spec_pixel(x, y) == fill,
    {
        let size = width * height;
        let mut pixels: Vec<T> = Vec::with_capacity(size);
        let mut i: usize = 0;
        while i < size
            invariant
                i <= size,
                pixels@.len() == i,
                forall|k: int| 0 <= k < i ==> pixels@[k] == fill,
            decreases size - i,
        {
            pixels.push(fill);
            i = i + 1;
        }
        let r = Canvas { width, height, pixels };
        proof {
            assert forall|x: int, y: int| 0 <= x < width && 0 <= y < height implies r.spec_pixel(x, y) == fill by {
                lemma_pixel_index(x, y, width as int, height as int);
            }
        }
        r
    }
}

} // verus!
