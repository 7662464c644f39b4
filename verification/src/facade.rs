//! Facade: one simple interface in front of a set of subsystems.
//!
//! `Compiler` is the facade. A client asks it to run, and it runs the parser,
//! the code generator, the optimiser and the linker in that order.

use vstd::prelude::*;
use vstd::string::*;

verus! {

/// A subsystem.
pub struct Linker;

impl Linker {
    pub fn run(&self) -> (r: &str)
        ensures
            r@ == "linking code"@,
    {
        "linking code"
    }
}

/// Another subsystem.
pub struct Parser;

impl Parser {
    pub fn run(&self) -> (r: &str)
        ensures
            r@ == "parsing source code"@,
    {
        "parsing source code"
    }
}

/// Another subsystem.
pub struct Optimiser;

impl Optimiser {
    pub fn run(&self) -> (r: &str)
        ensures
            r@ == "optimising generate machine code"@,
    {
        "optimising generate machine code"
    }
}

/// Another subsystem.
pub struct CodeGenerator;

impl CodeGenerator {
    pub fn run(&self) -> (r: &str)
        ensures
            r@ == "generating machine code"@,
    {
        "generating machine code"
    }
}

/// The report of a whole compilation: what each stage answered, in the order
/// in which the stages run, one per line.
pub open spec fn compilation_report() -> Seq<char> {
    "parsing source code"@ + "\n"@ + "generating machine code"@ + "\n"@
        + "optimising generate machine code"@ + "\n"@ + "linking code"@
}

/// The entire system: a facade for all its subsystems.
pub struct Compiler {
    parser: Parser,
    generator: CodeGenerator,
    optimiser: Optimiser,
    linker: Linker,
}

impl Compiler {
    pub fn new() -> Compiler {
        Compiler { parser: Parser, generator: CodeGenerator, optimiser: Optimiser, linker: Linker }
    }

    /// Runs every stage and joins their answers with line breaks.
    pub fn run(&self) -> (r: String)
        ensures
            r@ == compilation_report(),
    {
        let mut report = String::from_str(self.parser.run());
        report.append("\n");
        report.append(self.generator.run());
        report.append("\n");
        report.append(self.optimiser.run());
        report.append("\n");
        report.append(self.linker.run());
        report
    }
}

/// The report, written out.
pub proof fn lemma_report_text()
    ensures
        compilation_report() == "parsing source code\ngenerating machine code\noptimising generate machine code\nlinking code"@,
{
    reveal_strlit("parsing source code");
    reveal_strlit("generating machine code");
    reveal_strlit("optimising generate machine code");
    reveal_strlit("linking code");
    reveal_strlit("\n");
    reveal_strlit("parsing source code\ngenerating machine code\noptimising generate machine code\nlinking code");
    assert(compilation_report() =~= "parsing source code\ngenerating machine code\noptimising generate machine code\nlinking code"@);
}

} // verus!
