//! Profiling of transpilation: what a run produced and how long its stages
//! took, and which stage took longest.  Times are whole nanoseconds.

use crate::clock::{instant_now, nanos_between};
use crate::error::{TranspileError, TranspileErrorOf};
use crate::parser::parse_source;
use crate::sql_generator::SqlDialect;
use crate::{transpile_spec, Transpiler};
use vstd::prelude::*;
use vstd::string::*;
use vstd::utf8::encode_utf8;

verus! {

/// Metrics of one transpilation; times in nanoseconds.
#[derive(Debug, Clone)]
pub struct PerformanceMetrics {
    pub total_time: u128,
    pub lexing_time: Option<u128>,
    pub parsing_time: Option<u128>,
    pub generation_time: Option<u128>,
    pub input_size: usize,
    pub output_size: usize,
    pub success: bool,
    pub error_type: Option<String>,
}

/// An optional time, zero when absent.
pub open spec fn time_or_zero(t: Option<u128>) -> u128 {
    match t {
        Some(x) => x,
        None => 0,
    }
}

/// The stage that took longest: none when no stage took any time, else
/// lexing when it took at least as long as each other stage, else parsing
/// when it took at least as long as generation, else generation.
pub open spec fn bottleneck_of(lexing: u128, parsing: u128, generation: u128) -> Option<Seq<char>> {
    if lexing == 0 && parsing == 0 && generation == 0 {
        None
    } else if lexing >= parsing && lexing >= generation {
        Some("lexing"@)
    } else if parsing >= generation {
        Some("parsing"@)
    } else {
        Some("generation"@)
    }
}

impl PerformanceMetrics {
    /// The stage that took longest.
    pub fn bottleneck_stage(&self) -> (r: Option<&'static str>)
        ensures
            match r {
                Some(s) => bottleneck_of(
                    time_or_zero(self.lexing_time),
                    time_or_zero(self.parsing_time),
                    time_or_zero(self.generation_time),
                ) == Some(s@),
                None => bottleneck_of(
                    time_or_zero(self.lexing_time),
                    time_or_zero(self.parsing_time),
                    time_or_zero(self.generation_time),
                ) is None,
            },
    {
        let lexing = match self.lexing_time {
            Some(x) => x,
            None => 0,
        };
        let parsing = match self.parsing_time {
            Some(x) => x,
            None => 0,
        };
        let generation = match self.generation_time {
            Some(x) => x,
            None => 0,
        };
        if lexing == 0 && parsing == 0 && generation == 0 {
            None
        } else if lexing >= parsing && lexing >= generation {
            Some("lexing")
        } else if parsing >= generation {
            Some("parsing")
        } else {
            Some("generation")
        }
    }
}

/// The stage that took longest in one run.
pub open spec fn metric_stage(m: PerformanceMetrics) -> Option<Seq<char>> {
    bottleneck_of(time_or_zero(m.lexing_time), time_or_zero(m.parsing_time), time_or_zero(m.generation_time))
}

/// In how many of the runs `stage` took longest.
pub open spec fn stage_count(ms: Seq<PerformanceMetrics>, stage: Seq<char>) -> nat
    decreases ms.len(),
{
    if ms.len() == 0 {
        0
    } else {
        stage_count(ms.drop_last(), stage) + if metric_stage(ms.last()) == Some(stage) { 1nat } else { 0nat }
    }
}

/// The stage that most often took longest over a batch of runs: none when
/// no run has a longest stage; on a tie, any of the tied stages.
pub fn common_bottleneck(metrics: &[PerformanceMetrics]) -> (r: Option<&'static str>)
    ensures
        match r {
            None => stage_count(metrics@, "lexing"@) == 0 && stage_count(metrics@, "parsing"@) == 0
                && stage_count(metrics@, "generation"@) == 0,
            Some(s) => (s@ == "lexing"@ || s@ == "parsing"@ || s@ == "generation"@)
                && stage_count(metrics@, s@) > 0
                && stage_count(metrics@, "lexing"@) <= stage_count(metrics@, s@)
                && stage_count(metrics@, "parsing"@) <= stage_count(metrics@, s@)
                && stage_count(metrics@, "generation"@) <= stage_count(metrics@, s@),
        },
{
    let mut lexing: usize = 0;
    let mut parsing: usize = 0;
    let mut generation: usize = 0;
    let mut i: usize = 0;
    while i < metrics.len()
        invariant
            i <= metrics.len(),
            lexing == stage_count(metrics@.take(i as int), "lexing"@),
            parsing == stage_count(metrics@.take(i as int), "parsing"@),
            generation == stage_count(metrics@.take(i as int), "generation"@),
            lexing + parsing + generation <= i,
        decreases metrics.len() - i,
    {
        proof {
            assert(metrics@.take(i as int + 1).drop_last() =~= metrics@.take(i as int));
            reveal_strlit("lexing");
            reveal_strlit("parsing");
            reveal_strlit("generation");
            assert("lexing"@[0] != "parsing"@[0]);
            assert("lexing"@[0] != "generation"@[0]);
            assert("parsing"@[0] != "generation"@[0]);
        }
        match metrics[i].bottleneck_stage() {
            Some(st) => {
                if crate::text::str_eq(st, "lexing") {
                    lexing = lexing + 1;
                } else if crate::text::str_eq(st, "parsing") {
                    parsing = parsing + 1;
                } else {
                    generation = generation + 1;
                }
            },
            None => {},
        }
        i = i + 1;
    }
    assert(metrics@.take(metrics.len() as int) =~= metrics@);
    if lexing == 0 && parsing == 0 && generation == 0 {
        None
    } else if lexing >= parsing && lexing >= generation {
        Some("lexing")
    } else if parsing >= generation {
        Some("parsing")
    } else {
        Some("generation")
    }
}

/// The view of an optional string.
pub open spec fn optional_text(o: Option<String>) -> Option<Seq<char>> {
    match o {
        Some(s) => Some(s@),
        None => None,
    }
}

/// The `Debug` text of a conversion error.
pub uninterp spec fn debug_text_of(e: TranspileErrorOf<Seq<char>>) -> Seq<char>;

/// Wraps the derived `Debug` formatting of a conversion error; its text is
/// named by `debug_text_of`.
#[verifier::external_body]
fn debug_text(e: &TranspileError) -> (r: String)
    ensures
        r@ == debug_text_of(e@),
{
    format!("{:?}", e)
}

/// Profiler of transpilation.
pub struct PerformanceProfiler {
    pub transpiler: Transpiler,
    pub detailed_timing: bool,
}

impl PerformanceProfiler {
    /// A profiler for `dialect`, timing the whole run only.
    pub fn new(dialect: Box<dyn SqlDialect>) -> (p: Self)
        ensures
            p.transpiler.dialect_spec() == &*dialect,
            !p.detailed_timing,
    {
        let transpiler = Transpiler::new(dialect);
        PerformanceProfiler { transpiler, detailed_timing: false }
    }

    /// Times parsing and generation separately from now on.
    pub fn enable_detailed_timing(&mut self)
        ensures
            final(self).detailed_timing,
            final(self).transpiler == old(self).transpiler,
    {
        self.detailed_timing = true;
    }

    /// Profiles one transpilation of `input`: its outcome is that of
    /// `transpile`; with detailed timing, parsing is timed, and generation
    /// too when parsing succeeded.
    pub fn profile_transpile(&self, input: &str) -> (m: PerformanceMetrics)
        ensures
            m.input_size == input.spec_bytes().len() as usize,
            m.lexing_time is None,
            m.parsing_time is Some == self.detailed_timing,
            m.generation_time is Some == (self.detailed_timing && parse_source(input@) is Ok),
            match transpile_spec(self.transpiler.dialect_spec(), input@) {
                Ok(sql) => m.success && m.output_size == encode_utf8(sql).len() as usize && m.error_type is None,
                Err(e) => !m.success && m.output_size == 0 && optional_text(m.error_type) == Some(debug_text_of(e)),
            },
    {
        let start_time = instant_now();
        let input_size = input.len();
        let lexing_time: Option<u128> = None;
        let mut parsing_time: Option<u128> = None;
        let mut generation_time: Option<u128> = None;
        let result: Result<String, TranspileError> = if self.detailed_timing {
            let lex_start = instant_now();
            let parse_result = self.transpiler.parse_dplyr(input);
            let parse_end = instant_now();
            parsing_time = Some(nanos_between(&lex_start, &parse_end));
            match parse_result {
                Ok(ast) => {
                    let gen_start = instant_now();
                    let gen_result = self.transpiler.generate_sql(&ast);
                    let gen_end = instant_now();
                    generation_time = Some(nanos_between(&gen_start, &gen_end));
                    match gen_result {
                        Ok(s) => Ok(s),
                        Err(g) => Err(TranspileErrorOf::GenerationError(g)),
                    }
                },
                Err(e) => Err(crate::parse_failure(e)),
            }
        } else {
            self.transpiler.transpile(input)
        };
        let end_time = instant_now();
        let total_time = nanos_between(&start_time, &end_time);
        let (success, output_size, error_type) = match result {
            Ok(sql) => (true, sql.as_str().len(), None),
            Err(e) => (false, 0, Some(debug_text(&e))),
        };
        PerformanceMetrics {
            total_time,
            lexing_time,
            parsing_time,
            generation_time,
            input_size,
            output_size,
            success,
            error_type,
        }
    }
}

} // verus!
