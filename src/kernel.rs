//! The kernel gateway: runs the bulk kernel over code points in bounded chunks,
//! polling the control block between chunks, so that no call blocks for more
//! than one chunk's work.

use crate::control::{iteration_budget, next_beat, AssemblyControl};
use crate::error::AssemblyError;
use crate::util::{base_letter, clean_char, clean_chars, cleaned};
use vstd::prelude::*;

verus! {

/// Elements handed to the kernel between two polls of the control block.
pub const CHUNK_SIZE: usize = 1024;

/// The largest request the gateway accepts.
pub const MAX_INPUT_LEN: usize = 100_000_000;

/// The code point that stands for an invalid one in the software kernel.
pub const REPLACEMENT_CODE: u32 = 0xFFFD;

/// How many chunks of `CHUNK_SIZE` it takes to cover `n` elements.
pub open spec fn chunk_count(n: int) -> int {
    (n + CHUNK_SIZE - 1) / (CHUNK_SIZE as int)
}

proof fn lemma_chunk_count_step(p: int, x: int)
    requires
        p >= 0,
        p % (CHUNK_SIZE as int) == 0,
        p < x <= p + CHUNK_SIZE,
    ensures
        chunk_count(x) == chunk_count(p) + 1,
        chunk_count(x) <= x,
        chunk_count(p) <= p,
{
    let c = CHUNK_SIZE as int;
    let k = p / c;
    assert(p == k * c);
    assert(chunk_count(p) == k) by (nonlinear_arith)
        requires
            p == k * c,
            c == 1024,
            k >= 0,
    {
    }
    assert(chunk_count(x) == k + 1) by (nonlinear_arith)
        requires
            p == k * c,
            c == 1024,
            k >= 0,
            p < x <= p + c,
    {
    }
    assert(k + 1 <= x) by (nonlinear_arith)
        requires
            p == k * c,
            c == 1024,
            k >= 0,
            p < x,
    {
    }
    assert(k <= p) by (nonlinear_arith)
        requires
            p == k * c,
            c == 1024,
            k >= 0,
    {
    }
}

/// The Unicode scalar value of a character.
pub open spec fn code_of(c: char) -> u32 {
    c as u32
}

/// Distinct characters have distinct scalar values.
pub(crate) proof fn lemma_code_injective(c: char, d: char)
    requires
        code_of(c) == code_of(d),
    ensures
        c == d,
{
}

/// The code point of the software kernel's result for the code point `x`: the
/// plain letter of the character `x` encodes, or the replacement character
/// when `x` encodes none.
pub open spec fn clean_code(x: u32) -> u32 {
    if exists|c: char| #[trigger] code_of(c) == x {
        code_of(base_letter(choose|c: char| #[trigger] code_of(c) == x))
    } else {
        REPLACEMENT_CODE
    }
}

/// Relies on `char::from_u32`: the character whose scalar value is `x`, or
/// `None` when `x` is not a Unicode scalar value.
#[verifier::external_body]
pub(crate) fn char_from_code(x: u32) -> (r: Option<char>)
    ensures
        match r {
            Some(c) => code_of(c) == x,
            None => forall|c: char| #[trigger] code_of(c) != x,
        },
{
    char::from_u32(x)
}

/// The software kernel on one code point.
fn clean_code_point(x: u32) -> (r: u32)
    ensures
        r == clean_code(x),
{
    match char_from_code(x) {
        Some(c) => {
            let r = clean_char(c) as u32;
            let ghost d = choose|d: char| #[trigger] code_of(d) == x;
            proof {
                lemma_code_injective(c, d);
            }
            r
        },
        None => REPLACEMENT_CODE,
    }
}

/// Runs the software kernel over `input[from..to]`, writing into `output[from..to]`.
fn clean_codes_into(input: &[u32], output: &mut [u32], from: usize, to: usize)
    requires
        from <= to <= input@.len(),
        old(output)@.len() == input@.len(),
    ensures
        final(output)@.len() == input@.len(),
        forall|i: int| from <= i < to ==> final(output)@[i] == clean_code(input@[i]),
        forall|i: int| 0 <= i < from || to <= i < input@.len() ==> final(output)@[i] == old(output)@[i],
{
    let mut i = from;
    while i < to
        invariant
            from <= i <= to <= input@.len(),
            output@.len() == input@.len(),
            forall|j: int| from <= j < i ==> output@[j] == clean_code(input@[j]),
            forall|j: int| 0 <= j < from || to <= j < input@.len() ==> output@[j] == old(output)@[j],
        decreases to - i,
    {
        output[i] = clean_code_point(input[i]);
        i = i + 1;
    }
}

/// The kernel families a build can carry.
#[derive(Debug, Clone, Copy, PartialEq, Eq, Structural)]
pub enum AssemblyPlatform {
    /// Apple Silicon ARM64 kernels.
    AppleSilicon,
    /// `x86_64` kernels with BMI2 and AVX-512.
    X86_64,
    /// Generic ARM64 kernels with NEON.
    GenericARM64,
    /// The software kernel.
    RustFallback,
}

impl AssemblyPlatform {
    /// The best kernel family linked into this build. No native kernel is
    /// linked into it, so this is the software kernel.
    pub fn detect() -> (r: AssemblyPlatform)
        ensures
            r == AssemblyPlatform::RustFallback,
    {
        AssemblyPlatform::RustFallback
    }

    /// A name for logs and diagnostics.
    pub fn name(&self) -> (r: &'static str)
        ensures
            r@ == platform_name(*self),
    {
        match self {
            AssemblyPlatform::AppleSilicon => "Apple Silicon ARM64",
            AssemblyPlatform::X86_64 => "x86_64 with BMI2/AVX-512",
            AssemblyPlatform::GenericARM64 => "Generic ARM64",
            AssemblyPlatform::RustFallback => "Rust Fallback",
        }
    }
}

/// The name of a kernel family.
pub open spec fn platform_name(p: AssemblyPlatform) -> Seq<char> {
    match p {
        AssemblyPlatform::AppleSilicon => "Apple Silicon ARM64"@,
        AssemblyPlatform::X86_64 => "x86_64 with BMI2/AVX-512"@,
        AssemblyPlatform::GenericARM64 => "Generic ARM64"@,
        AssemblyPlatform::RustFallback => "Rust Fallback"@,
    }
}

/// The gateway to the kernels of one platform.
pub struct AssemblyInterface {
    platform: AssemblyPlatform,
}

impl AssemblyInterface {
    /// The platform whose kernels this gateway runs.
    pub closed spec fn platform_spec(&self) -> AssemblyPlatform {
        self.platform
    }

    /// A gateway to the best kernels of this build.
    pub fn new() -> (r: AssemblyInterface)
        ensures
            r.platform_spec() == AssemblyPlatform::RustFallback,
    {
        AssemblyInterface { platform: AssemblyPlatform::detect() }
    }

    /// The platform whose kernels this gateway runs.
    pub fn platform(&self) -> (r: AssemblyPlatform)
        ensures
            r == self.platform_spec(),
    {
        self.platform
    }

    /// Whether a native kernel runs, rather than the software kernel.
    pub fn is_assembly_available(&self) -> (r: bool)
        ensures
            r == (self.platform_spec() != AssemblyPlatform::RustFallback),
    {
        self.platform != AssemblyPlatform::RustFallback
    }

    /// Cleans one character after one poll of `control`: `Cancelled` when the
    /// poll says stop.
    pub fn process_char_safe(&self, ch: char, control: &mut AssemblyControl) -> (r: Result<
        char,
        AssemblyError,
    >)
        ensures
            exists|now: u64| #[trigger]
                old(control).after_poll(now) == (*final(control), r is Ok),
            r is Ok ==> r == Ok::<char, AssemblyError>(base_letter(ch)),
            r is Err ==> r == Err::<char, AssemblyError>(AssemblyError::Cancelled),
    {
        if !control.should_continue() {
            return Err(AssemblyError::Cancelled);
        }
        Ok(clean_char(ch))
    }

    /// Runs the kernel over `input` into `output`, one chunk of `CHUNK_SIZE`
    /// code points per poll of `control` and one heartbeat per chunk, after
    /// resetting `control` for the operation. Returns how many leading code
    /// points were processed: all of them, unless a poll said stop; what lies
    /// past them in `output` is left as it was.
    ///
    /// Lengths that differ, and requests over `MAX_INPUT_LEN`, are
    /// `InvalidInput`. The iteration budget that the reset grants always
    /// covers the chunks, so a stop can only come from the clock: then the
    /// timeout flag is raised and nothing else.
    pub fn process_chars_bulk_safe(
        &self,
        input: &[u32],
        output: &mut [u32],
        control: &mut AssemblyControl,
    ) -> (r: Result<usize, AssemblyError>)
        ensures
            final(output)@.len() == old(output)@.len(),
            input@.len() != old(output)@.len() ==> r == Err::<usize, AssemblyError>(
                AssemblyError::InvalidInput,
            ),
            input@.len() == old(output)@.len() && input@.len() > MAX_INPUT_LEN ==> r == Err::<
                usize,
                AssemblyError,
            >(AssemblyError::InvalidInput),
            input@.len() == 0 && old(output)@.len() == 0 ==> r == Ok::<usize, AssemblyError>(0),
            r is Err || input@.len() == 0 ==> *final(control) == *old(control) && final(output)@
                == old(output)@,
            input@.len() == old(output)@.len() && 0 < input@.len() <= MAX_INPUT_LEN ==> {
                &&& r is Ok
                &&& r->Ok_0 <= input@.len()
                &&& r->Ok_0 % CHUNK_SIZE == 0 || r->Ok_0 == input@.len()
                &&& forall|i: int| 0 <= i < r->Ok_0 ==> final(output)@[i] == clean_code(input@[i])
                &&& forall|i: int| r->Ok_0 <= i < input@.len() ==> final(output)@[i] == old(output)@[i]
                &&& final(control).heartbeat == chunk_count(r->Ok_0 as int)
                &&& final(control).timeout_flag ==> final(control).current_iteration == chunk_count(
                    r->Ok_0 as int,
                ) + 1
                &&& !final(control).timeout_flag ==> final(control).current_iteration
                    == chunk_count(r->Ok_0 as int)
                &&& final(control).timeout_ms == old(control).timeout_ms
                &&& final(control).max_iterations == iteration_budget(input.len())
                &&& !final(control).cancel_flag && !final(control).panic_flag
                &&& r->Ok_0 == input@.len() <==> !final(control).timeout_flag
                &&& old(control).timeout_ms == 0 ==> r->Ok_0 == input@.len()
            },
    {
        if input.len() != output.len() {
            return Err(AssemblyError::InvalidInput);
        }
        if input.len() == 0 {
            return Ok(0);
        }
        if input.len() > MAX_INPUT_LEN {
            return Err(AssemblyError::InvalidInput);
        }
        let len = input.len();
        control.reset_for_operation(len);
        let ghost budget = iteration_budget(len);
        assert(budget >= len);
        let mut processed: usize = 0;
        while processed < len
            invariant
                len == input@.len() == output@.len(),
                output@.len() == old(output)@.len(),
                0 < len <= MAX_INPUT_LEN,
                processed <= len,
                control.max_iterations == budget,
                budget == iteration_budget(len),
                budget >= len,
                control.current_iteration <= processed,
                processed % CHUNK_SIZE == 0 || processed == len,
                control.current_iteration == chunk_count(processed as int),
                control.heartbeat == chunk_count(processed as int),
                forall|i: int| processed <= i < len ==> output@[i] == old(output)@[i],
                control.timeout_ms == old(control).timeout_ms,
                !control.stopped(),
                forall|i: int| 0 <= i < processed ==> output@[i] == clean_code(input@[i]),
            decreases len - processed,
        {
            if !control.should_continue() {
                assert(control.timeout_flag && !control.cancel_flag && !control.panic_flag);
                assert(input@.len() as usize == len);
                return Ok(processed);
            }
            let end = if len - processed > CHUNK_SIZE {
                processed + CHUNK_SIZE
            } else {
                len
            };
            proof {
                assert(processed % CHUNK_SIZE == 0);
                lemma_chunk_count_step(processed as int, end as int);
            }
            clean_codes_into(input, output, processed, end);
            control.update_heartbeat();
            processed = end;
        }
        assert(input@.len() as usize == len);
        Ok(processed)
    }
}

/// A chunk step of `before` with the wall clock reading `now` leaves `after`
/// and goes on exactly when `went_on`: the poll, then a heartbeat when the
/// poll let the run go on.
pub open spec fn chunk_step(
    before: AssemblyControl,
    now: u64,
    after: AssemblyControl,
    went_on: bool,
) -> bool {
    let (polled, go) = before.after_poll(now);
    &&& go == went_on
    &&& after == if go {
        AssemblyControl { heartbeat: next_beat(polled.heartbeat), ..polled }
    } else {
        polled
    }
}

/// One step of a chunked run over characters, for callers that interleave
/// other work between chunks: one poll of `control` and, when it lets the run
/// go on, the characters of the next chunk of `input` (up to `CHUNK_SIZE` from
/// `from` on) cleaned onto `out` and one heartbeat. Returns where the next
/// chunk starts, or `None` when the poll said stop.
pub fn clean_next_chunk(
    input: &[char],
    from: usize,
    out: &mut Vec<char>,
    control: &mut AssemblyControl,
) -> (r: Option<usize>)
    requires
        from < input@.len(),
        old(out)@ == cleaned(input@.subrange(0, from as int)),
    ensures
        exists|now: u64| #[trigger] chunk_step(*old(control), now, *final(control), r is Some),
        r is None ==> final(out)@ == old(out)@,
        r matches Some(end) ==> {
            &&& end == if input@.len() - from > CHUNK_SIZE {
                from + CHUNK_SIZE
            } else {
                input@.len() as int
            }
            &&& final(out)@ == cleaned(input@.subrange(0, end as int))
        },
{
    let ghost before = *control;
    let go = control.should_continue();
    let ghost now = choose|now: u64| #[trigger] before.after_poll(now) == (*control, go);
    if !go {
        let r: Option<usize> = None;
        assert(chunk_step(before, now, *control, r is Some));
        return r;
    }
    let end = if input.len() - from > CHUNK_SIZE {
        from + CHUNK_SIZE
    } else {
        input.len()
    };
    let mut i = from;
    while i < end
        invariant
            from <= i <= end <= input@.len(),
            out@ == cleaned(input@.subrange(0, i as int)),
        decreases end - i,
    {
        out.push(clean_char(input[i]));
        i = i + 1;
        assert(cleaned(input@.subrange(0, i as int)) =~= cleaned(input@.subrange(0, i - 1)).push(
            base_letter(input@[i - 1]),
        ));
    }
    control.update_heartbeat();
    let r = Some(end);
    assert(chunk_step(before, now, *control, r is Some));
    r
}

/// A gateway to the best kernels of this build.
pub fn get_assembly_interface() -> (r: AssemblyInterface)
    ensures
        r.platform_spec() == AssemblyPlatform::RustFallback,
{
    AssemblyInterface::new()
}

/// Whether this build runs a native kernel.
pub fn is_assembly_available() -> (r: bool)
    ensures
        r == false,
{
    get_assembly_interface().is_assembly_available()
}

/// Cleans one character with the best kernel, without a control block.
pub fn process_char_unsafe(ch: char) -> (r: char)
    ensures
        r == base_letter(ch),
{
    clean_char(ch)
}

/// Cleans a slice of characters with the best kernel, without a control block.
pub fn process_chars_bulk_unsafe(input: &[char]) -> (r: Vec<char>)
    ensures
        r@ == cleaned(input@),
{
    clean_chars(input)
}

/// A one-line description of the kernels of this build.
pub fn get_assembly_info() -> (r: String)
    ensures
        r@ == "Platform: "@ + platform_name(AssemblyPlatform::RustFallback) + " (Available: "@
            + "false"@ + ")"@,
{
    let interface = get_assembly_interface();
    let mut s = String::from_str("Platform: ");
    s.append(interface.platform().name());
    s.append(" (Available: ");
    s.append(if interface.is_assembly_available() { "true" } else { "false" });
    s.append(")");
    s
}

} // verus!
