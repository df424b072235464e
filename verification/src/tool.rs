//! Language routing: which external formatter a language token selects, and
//! how that tool is invoked (program name, arguments, reporting label).

use vstd::prelude::*;

verus! {

/// The two external formatter tools the dispatcher knows how to drive.
#[derive(Clone, Copy, Debug, PartialEq, Eq, Structural)]
pub enum Tool {
    /// The JavaScript/TypeScript pretty-printer, run through `npx`.
    Prettier,
    /// The Rust source formatter, run in stdout-emit mode.
    Rustfmt,
}

/// The label a tool is reported under in responses and diagnostics.
pub open spec fn label_of(tool: Tool) -> Seq<char> {
    match tool {
        Tool::Prettier => "prettier"@,
        Tool::Rustfmt => "rustfmt"@,
    }
}

/// The program name the tool is launched as.
pub open spec fn program_of(tool: Tool) -> Seq<char> {
    match tool {
        Tool::Prettier => "npx"@,
        Tool::Rustfmt => "rustfmt"@,
    }
}

/// The fixed argument list the tool is launched with.
pub open spec fn args_of(tool: Tool) -> Seq<Seq<char>> {
    match tool {
        Tool::Prettier => seq![
            "prettier"@,
            "--stdin-filepath"@,
            "file.js"@,
            "--parser"@,
            "babel"@,
        ],
        Tool::Rustfmt => seq!["--emit"@, "stdout"@],
    }
}

/// The language tokens that route to the JavaScript/TypeScript tool.
pub open spec fn js_family(lang: Seq<char>) -> bool {
    ||| lang == "javascript"@
    ||| lang == "typescript"@
    ||| lang == "js"@
    ||| lang == "ts"@
}

/// The language tokens the dispatcher recognizes at all.
pub open spec fn recognized(lang: Seq<char>) -> bool {
    js_family(lang) || lang == "rust"@
}

/// The tool a language token selects, if any. Matching is case-sensitive.
pub open spec fn tool_for(lang: Seq<char>) -> Option<Tool> {
    if js_family(lang) {
        Some(Tool::Prettier)
    } else if lang == "rust"@ {
        Some(Tool::Rustfmt)
    } else {
        None
    }
}

/// Routing is exact and exclusive: every JavaScript-family token selects the
/// JavaScript/TypeScript tool, the Rust token selects the Rust tool, no token
/// does both, and every other token selects nothing.
pub proof fn lemma_routing_exact(lang: Seq<char>)
    ensures
        js_family(lang) ==> tool_for(lang) == Some(Tool::Prettier),
        lang == "rust"@ ==> tool_for(lang) == Some(Tool::Rustfmt),
        !recognized(lang) ==> tool_for(lang) is None,
        !(js_family(lang) && lang == "rust"@),
{
    reveal_strlit("javascript");
    reveal_strlit("typescript");
    reveal_strlit("js");
    reveal_strlit("ts");
    reveal_strlit("rust");
    assert("javascript"@.len() == 10);
    assert("typescript"@.len() == 10);
    assert("js"@.len() == 2);
    assert("ts"@.len() == 2);
    assert("rust"@.len() == 4);
}

fn text_eq(a: &str, b: &str) -> (r: bool)
    ensures
        r == (a@ == b@),
{
    let x: String = a.to_owned();
    let y: String = b.to_owned();
    x == y
}

/// Select the tool for a language token, or `None` when the token is not
/// recognized.
pub fn select_tool(language: &str) -> (r: Option<Tool>)
    ensures
        r == tool_for(language@),
{
    if text_eq(language, "javascript") || text_eq(language, "typescript") || text_eq(
        language,
        "js",
    ) || text_eq(language, "ts") {
        Some(Tool::Prettier)
    } else if text_eq(language, "rust") {
        Some(Tool::Rustfmt)
    } else {
        None
    }
}

impl Tool {
    /// The label the tool is reported under.
    pub fn label(&self) -> (r: String)
        ensures
            r@ == label_of(*self),
    {
        match self {
            Tool::Prettier => "prettier".to_owned(),
            Tool::Rustfmt => "rustfmt".to_owned(),
        }
    }

    /// The program name the tool is launched as.
    pub fn program(&self) -> (r: String)
        ensures
            r@ == program_of(*self),
    {
        match self {
            Tool::Prettier => "npx".to_owned(),
            Tool::Rustfmt => "rustfmt".to_owned(),
        }
    }

    /// The fixed argument list the tool is launched with.
    pub fn args(&self) -> (r: Vec<String>)
        ensures
            r.deep_view() == args_of(*self),
    {
        let mut v: Vec<String> = Vec::new();
        match self {
            Tool::Prettier => {
                v.push("prettier".to_owned());
                v.push("--stdin-filepath".to_owned());
                v.push("file.js".to_owned());
                v.push("--parser".to_owned());
                v.push("babel".to_owned());
            },
            Tool::Rustfmt => {
                v.push("--emit".to_owned());
                v.push("stdout".to_owned());
            },
        }
        proof {
            assert(v.deep_view() =~= args_of(*self));
        }
        v
    }
}

} // verus!
