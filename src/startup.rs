use vstd::prelude::*;

verus! {

/// Byte addresses of the start-up regions, as the linker places them: the
/// initialized-data image at `sidata`, its home `sdata..edata`, and the
/// zero-filled region `sbss..ebss`.
#[derive(Clone, Copy, Debug, PartialEq, Eq, Structural)]
pub struct DataLayout {
    pub sidata: u32,
    pub sdata: u32,
    pub edata: u32,
    pub sbss: u32,
    pub ebss: u32,
}

impl DataLayout {
    /// Word-aligned bounds in order, with the whole image addressable.
    pub open spec fn wf(&self) -> bool {
        &&& self.sdata <= self.edata
        &&& self.sbss <= self.ebss
        &&& self.sidata % 4 == 0
        &&& self.sdata % 4 == 0
        &&& self.edata % 4 == 0
        &&& self.sbss % 4 == 0
        &&& self.ebss % 4 == 0
        &&& self.sidata + (self.edata - self.sdata) <= u32::MAX
    }

    /// Bytes of initialized data.
    pub open spec fn data_len(&self) -> int {
        self.edata - self.sdata
    }

    /// Bytes to zero.
    pub open spec fn bss_len(&self) -> int {
        self.ebss - self.sbss
    }
}

#[derive(Clone, Copy, Debug, PartialEq, Eq, Structural)]
pub enum InitPhase {
    Copy,
    Zero,
    Finished,
}

/// Progress of start-up: the phase and the byte offset reached in its region.
#[derive(Clone, Copy, Debug, PartialEq, Eq, Structural)]
pub struct InitCursor {
    pub phase: InitPhase,
    pub offset: u32,
}

/// One word-sized volatile memory access of start-up.
#[derive(Clone, Copy, Debug, PartialEq, Eq, Structural)]
pub enum MemOp {
    CopyWord { from: u32, to: u32 },
    ZeroWord { at: u32 },
    Finished,
}

/// A cursor that stands inside its phase's region, on a word boundary.
pub open spec fn cursor_ok(l: DataLayout, c: InitCursor) -> bool {
    &&& c.offset % 4 == 0
    &&& c.phase is Copy ==> c.offset <= l.data_len()
    &&& c.phase is Zero ==> c.offset <= l.bss_len()
}

/// One step of start-up: copy the next data word, else zero the next word.
pub open spec fn init_next(l: DataLayout, c: InitCursor) -> (InitCursor, MemOp) {
    let done = (InitCursor { phase: InitPhase::Finished, offset: 0 }, MemOp::Finished);
    match c.phase {
        InitPhase::Copy => if c.offset < l.data_len() {
            (
                InitCursor { phase: InitPhase::Copy, offset: (c.offset + 4) as u32 },
                MemOp::CopyWord {
                    from: (l.sidata + c.offset) as u32,
                    to: (l.sdata + c.offset) as u32,
                },
            )
        } else if l.sbss < l.ebss {
            (InitCursor { phase: InitPhase::Zero, offset: 4 }, MemOp::ZeroWord { at: l.sbss })
        } else {
            done
        },
        InitPhase::Zero => if c.offset < l.bss_len() {
            (
                InitCursor { phase: InitPhase::Zero, offset: (c.offset + 4) as u32 },
                MemOp::ZeroWord { at: (l.sbss + c.offset) as u32 },
            )
        } else {
            done
        },
        InitPhase::Finished => done,
    }
}

/// Where start-up begins.
pub fn init_start() -> (c: InitCursor)
    ensures
        c == (InitCursor { phase: InitPhase::Copy, offset: 0 }),
{
    InitCursor { phase: InitPhase::Copy, offset: 0 }
}

/// Advances start-up by one word.
pub fn init_step(l: &DataLayout, c: InitCursor) -> (r: (InitCursor, MemOp))
    requires
        l.wf(),
        cursor_ok(*l, c),
    ensures
        r == init_next(*l, c),
        cursor_ok(*l, r.0),
{
    let done = (InitCursor { phase: InitPhase::Finished, offset: 0 }, MemOp::Finished);
    match c.phase {
        InitPhase::Copy => {
            if c.offset < l.edata - l.sdata {
                (
                    InitCursor { phase: InitPhase::Copy, offset: c.offset + 4 },
                    MemOp::CopyWord { from: l.sidata + c.offset, to: l.sdata + c.offset },
                )
            } else if l.sbss < l.ebss {
                (InitCursor { phase: InitPhase::Zero, offset: 4 }, MemOp::ZeroWord { at: l.sbss })
            } else {
                done
            }
        },
        InitPhase::Zero => {
            if c.offset < l.ebss - l.sbss {
                (
                    InitCursor { phase: InitPhase::Zero, offset: c.offset + 4 },
                    MemOp::ZeroWord { at: l.sbss + c.offset },
                )
            } else {
                done
            }
        },
        InitPhase::Finished => done,
    }
}

/// A model of word-addressed memory: `words[i]` is the word at byte
/// address `base + 4 * i`.
pub struct Memory {
    pub base: u32,
    pub words: Vec<u32>,
}

impl Memory {
    /// The `len` bytes from `a` lie inside this memory (an empty range always does).
    pub open spec fn holds(&self, a: int, len: int) -> bool {
        len == 0 || (self.base <= a && a + len <= self.base + 4 * self.words@.len())
    }

    /// The index of the word at byte address `a`.
    pub open spec fn index(&self, a: int) -> int {
        (a - self.base) / 4
    }
}

/// What a completed start-up leaves in memory: the data region holds the
/// image word for word, the zero region reads as zero, and every other word
/// is as it was.
pub open spec fn initialized(l: DataLayout, before: Seq<u32>, base: u32, after: Seq<u32>) -> bool {
    let ds = (l.sdata - base) / 4;
    let ss = (l.sidata - base) / 4;
    let zs = (l.sbss - base) / 4;
    let nd = l.data_len() / 4;
    let nz = l.bss_len() / 4;
    &&& after.len() == before.len()
    &&& forall|i: int| 0 <= i < nd ==> #[trigger] after[ds + i] == before[ss + i]
    &&& forall|i: int| 0 <= i < nz ==> #[trigger] after[zs + i] == 0
    &&& forall|j: int|
        0 <= j < after.len() && !(ds <= j < ds + nd) && !(zs <= j < zs + nz) ==> #[trigger] after[j]
            == before[j]
}

/// The regions fit in memory, the data and zero regions do not overlap, and
/// a forward word copy cannot overwrite image words before reading them.
pub open spec fn init_fits(l: DataLayout, m: &Memory) -> bool {
    &&& l.wf()
    &&& m.base % 4 == 0
    &&& m.holds(l.sidata as int, l.data_len())
    &&& m.holds(l.sdata as int, l.data_len())
    &&& m.holds(l.sbss as int, l.bss_len())
    &&& (l.edata <= l.sbss || l.ebss <= l.sdata || l.data_len() == 0 || l.bss_len() == 0)
    &&& (l.sdata <= l.sidata || l.sidata + l.data_len() <= l.sdata)
}

spec fn init_remaining(l: DataLayout, c: InitCursor) -> int {
    match c.phase {
        InitPhase::Copy => l.data_len() - c.offset + l.bss_len() + 4,
        InitPhase::Zero => l.bss_len() - c.offset + 4,
        InitPhase::Finished => 0,
    }
}

proof fn lemma_word_split(a: int, base: int)
    requires
        a % 4 == 0,
        base % 4 == 0,
    ensures
        a - base == 4 * ((a - base) / 4),
{
}

/// Runs start-up on `mem`: copies the data image word by word, then zeroes
/// the zero region word by word. Returns the number of word accesses made.
pub fn run_init(mem: &mut Memory, l: &DataLayout) -> (n: u32)
    requires
        init_fits(*l, old(mem)),
    ensures
        final(mem).base == old(mem).base,
        initialized(*l, old(mem).words@, old(mem).base, final(mem).words@),
        4 * n == l.data_len() + l.bss_len(),
{
    let ghost before = mem.words@;
    let ghost ds = (l.sdata - mem.base) / 4;
    let ghost ss = (l.sidata - mem.base) / 4;
    let ghost zs = (l.sbss - mem.base) / 4;
    let ghost nd = l.data_len() / 4;
    let ghost nz = l.bss_len() / 4;
    proof {
        lemma_word_split(l.sdata as int, mem.base as int);
        lemma_word_split(l.sidata as int, mem.base as int);
        lemma_word_split(l.sbss as int, mem.base as int);
        lemma_word_split(l.edata as int, l.sdata as int);
        lemma_word_split(l.ebss as int, l.sbss as int);
    }
    let mut c = init_start();
    let ghost mut w: int = 0;
    let mut n: u32 = 0;
    loop
        invariant
            init_fits(*l, mem),
            mem.base == old(mem).base,
            mem.words@.len() == before.len(),
            before == old(mem).words@,
            ds == (l.sdata - mem.base) / 4,
            ss == (l.sidata - mem.base) / 4,
            zs == (l.sbss - mem.base) / 4,
            nd == l.data_len() / 4,
            nz == l.bss_len() / 4,
            l.sdata - mem.base == 4 * ds,
            l.sidata - mem.base == 4 * ss,
            l.sbss - mem.base == 4 * zs,
            l.data_len() == 4 * nd,
            l.bss_len() == 4 * nz,
            cursor_ok(*l, c),
            !(c.phase is Finished),
            c.offset == 4 * w,
            c.phase is Copy ==> 4 * n == c.offset,
            c.phase is Zero ==> 4 * n == l.data_len() + c.offset,
            c.phase is Copy ==> forall|i: int| 0 <= i < w ==> #[trigger] mem.words@[ds + i] == before[ss + i],
            c.phase is Copy ==> forall|j: int|
                0 <= j < before.len() && !(ds <= j < ds + w) ==> #[trigger] mem.words@[j] == before[j],
            c.phase is Zero ==> forall|i: int| 0 <= i < nd ==> #[trigger] mem.words@[ds + i] == before[ss + i],
            c.phase is Zero ==> forall|i: int| 0 <= i < w ==> #[trigger] mem.words@[zs + i] == 0,
            c.phase is Zero ==> forall|j: int|
                0 <= j < before.len() && !(ds <= j < ds + nd) && !(zs <= j < zs + w) ==> #[trigger] mem.words@[j] == before[j],
        ensures
            mem.base == old(mem).base,
            initialized(*l, before, mem.base, mem.words@),
            4 * n == l.data_len() + l.bss_len(),
        decreases init_remaining(*l, c),
    {
        let (next, op) = init_step(l, c);
        match op {
            MemOp::CopyWord { from, to } => {
                let v = mem.words[((from - mem.base) / 4) as usize];
                mem.words.set(((to - mem.base) / 4) as usize, v);
                proof {
                    assert(mem.words@[ds + w] == before[ss + w]);
                }
            },
            MemOp::ZeroWord { at } => {
                mem.words.set(((at - mem.base) / 4) as usize, 0);
            },
            MemOp::Finished => {
                break;
            },
        }
        proof {
            lemma_word_split(next.offset as int, 0);
            w = next.offset as int / 4;
        }
        c = next;
        n = n + 1;
    }
    n
}

/// With empty data and zero regions, start-up makes no memory access: its
/// first step already reports that it is finished.
pub proof fn lemma_empty_regions_no_work(l: DataLayout)
    requires
        l.wf(),
        l.sdata == l.edata,
        l.sbss == l.ebss,
    ensures
        init_next(l, InitCursor { phase: InitPhase::Copy, offset: 0 }).1 is Finished,
{
}

/// With empty data and zero regions, completed start-up leaves memory unchanged.
pub proof fn lemma_empty_regions_unchanged(
    l: DataLayout,
    before: Seq<u32>,
    base: u32,
    after: Seq<u32>,
)
    requires
        l.wf(),
        l.sdata == l.edata,
        l.sbss == l.ebss,
        initialized(l, before, base, after),
    ensures
        after == before,
{
    assert forall|j: int| 0 <= j < after.len() implies after[j] == before[j] by {
        assert(!((l.sdata - base) / 4 <= j < (l.sdata - base) / 4 + l.data_len() / 4));
    }
    assert(after =~= before);
}

} // verus!
