use vstd::prelude::*;

verus! {

/// A compression algorithm; each one writes a sibling file with its own suffix.
#[derive(Debug, Clone, Copy, PartialEq, Eq, Structural)]
pub enum Algorithm {
    Brotli,
    Deflate,
    Gzip,
    Zstd,
}

impl Algorithm {
    /// The suffix appended to a file name for this algorithm's output.
    pub open spec fn suffix(self) -> Seq<char> {
        match self {
            Algorithm::Brotli => ".br"@,
            Algorithm::Deflate => ".zz"@,
            Algorithm::Gzip => ".gz"@,
            Algorithm::Zstd => ".zst"@,
        }
    }

    pub fn extension(self) -> (r: &'static str)
        ensures
            r@ == self.suffix(),
    {
        match self {
            Algorithm::Brotli => ".br",
            Algorithm::Deflate => ".zz",
            Algorithm::Gzip => ".gz",
            Algorithm::Zstd => ".zst",
        }
    }
}

/// Which algorithms a run produces output for; the flags are independent.
#[derive(Debug, Clone, Copy, PartialEq, Eq, Structural)]
pub struct Algorithms {
    pub brotli: bool,
    pub deflate: bool,
    pub gzip: bool,
    pub zstd: bool,
}

impl Algorithms {
    pub open spec fn includes(self, a: Algorithm) -> bool {
        match a {
            Algorithm::Brotli => self.brotli,
            Algorithm::Deflate => self.deflate,
            Algorithm::Gzip => self.gzip,
            Algorithm::Zstd => self.zstd,
        }
    }

    /// The enabled algorithms, in the order Brotli, Deflate, Gzip, Zstd.
    pub open spec fn enabled_seq(self) -> Seq<Algorithm> {
        (if self.brotli { seq![Algorithm::Brotli] } else { Seq::empty() }) + (if self.deflate {
            seq![Algorithm::Deflate]
        } else {
            Seq::empty()
        }) + (if self.gzip { seq![Algorithm::Gzip] } else { Seq::empty() }) + (if self.zstd {
            seq![Algorithm::Zstd]
        } else {
            Seq::empty()
        })
    }

    /// Whether `a` is enabled.
    pub fn contains(&self, a: Algorithm) -> (r: bool)
        ensures
            r == self.includes(a),
    {
        match a {
            Algorithm::Brotli => self.brotli,
            Algorithm::Deflate => self.deflate,
            Algorithm::Gzip => self.gzip,
            Algorithm::Zstd => self.zstd,
        }
    }

    /// The enabled algorithms, each once, in the order Brotli, Deflate, Gzip, Zstd.
    pub fn enabled(&self) -> (r: Vec<Algorithm>)
        ensures
            r@ == self.enabled_seq(),
    {
        let mut r: Vec<Algorithm> = Vec::new();
        if self.brotli {
            r.push(Algorithm::Brotli);
        }
        if self.deflate {
            r.push(Algorithm::Deflate);
        }
        if self.gzip {
            r.push(Algorithm::Gzip);
        }
        if self.zstd {
            r.push(Algorithm::Zstd);
        }
        assert(r@ =~= self.enabled_seq());
        r
    }
}

/// The enabled algorithms are exactly the selected ones, each listed once.
pub proof fn lemma_enabled_exact(sel: Algorithms)
    ensures
        forall|a: Algorithm| #[trigger] sel.enabled_seq().contains(a) <==> sel.includes(a),
        sel.enabled_seq().no_duplicates(),
{
    let s = sel.enabled_seq();
    assert forall|a: Algorithm| #[trigger] s.contains(a) <==> sel.includes(a) by {
        if sel.includes(a) {
            let i = (if a != Algorithm::Brotli && sel.brotli { 1int } else { 0 }) + (if a
                != Algorithm::Brotli && a != Algorithm::Deflate && sel.deflate {
                1int
            } else {
                0
            }) + (if a == Algorithm::Zstd && sel.gzip { 1int } else { 0 });
            assert(s[i] == a);
        }
    }
}

} // verus!
