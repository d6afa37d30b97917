use std::marker::PhantomData;
use vstd::prelude::*;

use crate::object::JsObject;
use crate::string::JsString;

verus! {

/// What the engine receives to evaluate a script: the references of the script
/// text, of the `this` object and of the source URL (`0` for none), and the
/// line number the script starts at. A script without text (`0`) is evaluated
/// as the empty script.
#[derive(Debug, Clone, Copy, PartialEq, Eq, Structural)]
pub struct ScriptParts {
    pub script: usize,
    pub this: usize,
    pub source: usize,
    pub starting_lineno: i32,
}

impl ScriptParts {
    /// These parts with another script text.
    pub open spec fn with_script(self, script: usize) -> ScriptParts {
        ScriptParts { script, ..self }
    }

    /// These parts with another `this` object.
    pub open spec fn with_this(self, this: usize) -> ScriptParts {
        ScriptParts { this, ..self }
    }

    /// These parts with another source URL.
    pub open spec fn with_source(self, source: usize) -> ScriptParts {
        ScriptParts { source, ..self }
    }

    /// These parts with another starting line number.
    pub open spec fn with_starting_lineno(self, starting_lineno: i32) -> ScriptParts {
        ScriptParts { starting_lineno, ..self }
    }
}

/// The reference of an optional object, `0` for none.
pub open spec fn object_ref_or_null<'a>(o: Option<&JsObject<'a>>) -> usize {
    match o {
        Some(o) => o@,
        None => 0,
    }
}

/// The reference of an optional string, `0` for none.
pub open spec fn string_ref_or_null(s: Option<&JsString>) -> usize {
    match s {
        Some(s) => s@->0,
        None => 0,
    }
}

/// The parts of a new builder: empty text, no `this` object, no source URL,
/// line `0`.
pub open spec fn default_parts() -> ScriptParts {
    ScriptParts { script: 0, this: 0, source: 0, starting_lineno: 0 }
}

/// A script to evaluate in a context.
pub struct Script<'ctx> {
    _phantom: PhantomData<&'ctx ()>,
    parts: ScriptParts,
}

impl<'ctx> View for Script<'ctx> {
    type V = ScriptParts;

    closed spec fn view(&self) -> ScriptParts {
        self.parts
    }
}

impl<'ctx> Script<'ctx> {
    /// Creates a script from its text, an optional `this` object, an optional
    /// source URL and an optional starting line number (`0` when absent).
    ///
    /// The strings must not have been released.
    pub fn new(
        script: &'ctx JsString,
        this: Option<&'ctx JsObject<'ctx>>,
        source: Option<&'ctx JsString>,
        starting_lineno: Option<i32>,
    ) -> (r: Self)
        requires
            script@ is Some,
            source matches Some(s) ==> s@ is Some,
        ensures
            r@ == (ScriptParts {
                script: script@->0,
                this: object_ref_or_null(this),
                source: string_ref_or_null(source),
                starting_lineno: match starting_lineno {
                    Some(n) => n,
                    None => 0i32,
                },
            }),
    {
        let this_ref: usize = match this {
            Some(o) => o.rf(),
            None => 0,
        };
        let source_ref: usize = match source {
            Some(s) => s.as_ptr(),
            None => 0,
        };
        let lineno: i32 = match starting_lineno {
            Some(n) => n,
            None => 0,
        };
        Script {
            _phantom: PhantomData,
            parts: ScriptParts {
                script: script.as_ptr(),
                this: this_ref,
                source: source_ref,
                starting_lineno: lineno,
            },
        }
    }

    /// Starts a builder with empty script text, no `this` object, no source
    /// URL and line number `0`.
    pub fn builder() -> (r: ScriptBuilder<'ctx>)
        ensures
            r@ == default_parts(),
    {
        ScriptBuilder {
            script: Script {
                _phantom: PhantomData,
                parts: ScriptParts { script: 0, this: 0, source: 0, starting_lineno: 0 },
            },
        }
    }

    /// What the engine receives to evaluate this script.
    pub fn parts(&self) -> (r: ScriptParts)
        ensures
            r == self@,
    {
        self.parts
    }
}

/// Sets the parts of a [`Script`] one by one.
pub struct ScriptBuilder<'ctx> {
    script: Script<'ctx>,
}

impl<'ctx> View for ScriptBuilder<'ctx> {
    type V = ScriptParts;

    closed spec fn view(&self) -> ScriptParts {
        self.script@
    }
}

impl<'ctx> ScriptBuilder<'ctx> {
    /// Sets the script text.
    pub fn script(self, content: &'ctx JsString) -> (r: Self)
        requires
            content@ is Some,
        ensures
            r@ == self@.with_script(content@->0),
            Some(r@.script) == content@,
            r@.this == self@.this,
            r@.source == self@.source,
            r@.starting_lineno == self@.starting_lineno,
    {
        let mut b = self;
        b.script.parts.script = content.as_ptr();
        b
    }

    /// Sets the `this` object.
    pub fn this(self, obj: &'ctx JsObject<'ctx>) -> (r: Self)
        ensures
            r@ == self@.with_this(obj@),
            r@.script == self@.script,
            r@.this == obj@,
            r@.source == self@.source,
            r@.starting_lineno == self@.starting_lineno,
    {
        let mut b = self;
        b.script.parts.this = obj.rf();
        b
    }

    /// Sets the source URL.
    pub fn source_url(self, source: &'ctx JsString) -> (r: Self)
        requires
            source@ is Some,
        ensures
            r@ == self@.with_source(source@->0),
            r@.script == self@.script,
            r@.this == self@.this,
            Some(r@.source) == source@,
            r@.starting_lineno == self@.starting_lineno,
    {
        let mut b = self;
        b.script.parts.source = source.as_ptr();
        b
    }

    /// Sets the line number the script starts at.
    pub fn starting_line_number(self, start: i32) -> (r: Self)
        ensures
            r@ == self@.with_starting_lineno(start),
            r@.script == self@.script,
            r@.this == self@.this,
            r@.source == self@.source,
            r@.starting_lineno == start,
    {
        let mut b = self;
        b.script.parts.starting_lineno = start;
        b
    }

    /// The script with the parts set so far.
    pub fn build(self) -> (r: Script<'ctx>)
        ensures
            r@ == self@,
    {
        self.script
    }
}

/// Each setter of a script's parts sets its own part to the given value and
/// leaves the three other parts as they were.
pub proof fn law_setters_change_only_their_part(p: ScriptParts, v: usize, line: i32)
    ensures
        p.with_script(v).script == v,
        p.with_script(v).this == p.this,
        p.with_script(v).source == p.source,
        p.with_script(v).starting_lineno == p.starting_lineno,
        p.with_this(v).script == p.script,
        p.with_this(v).this == v,
        p.with_this(v).source == p.source,
        p.with_this(v).starting_lineno == p.starting_lineno,
        p.with_source(v).script == p.script,
        p.with_source(v).this == p.this,
        p.with_source(v).source == v,
        p.with_source(v).starting_lineno == p.starting_lineno,
        p.with_starting_lineno(line).script == p.script,
        p.with_starting_lineno(line).this == p.this,
        p.with_starting_lineno(line).source == p.source,
        p.with_starting_lineno(line).starting_lineno == line,
{
}

/// Setters of different parts do not interfere: applying them in either order
/// gives the same parts.
pub proof fn law_setters_commute(p: ScriptParts, s: usize, t: usize, u: usize, line: i32)
    ensures
        p.with_script(s).with_this(t) == p.with_this(t).with_script(s),
        p.with_script(s).with_source(u) == p.with_source(u).with_script(s),
        p.with_script(s).with_starting_lineno(line) == p.with_starting_lineno(line).with_script(s),
        p.with_this(t).with_source(u) == p.with_source(u).with_this(t),
        p.with_this(t).with_starting_lineno(line) == p.with_starting_lineno(line).with_this(t),
        p.with_source(u).with_starting_lineno(line) == p.with_starting_lineno(line).with_source(u),
{
}

/// Setting every part through the builder gives the same script as passing
/// every part to [`Script::new`].
pub proof fn law_builder_matches_new(
    script: usize,
    this: usize,
    source: usize,
    starting_lineno: i32,
)
    ensures
        default_parts().with_script(script).with_this(this).with_source(
            source,
        ).with_starting_lineno(starting_lineno) == (ScriptParts {
            script,
            this,
            source,
            starting_lineno,
        }),
{
}

/// A builder that only sets the text gives the script that [`Script::new`]
/// makes from the text alone: no `this` object, no source URL, line `0`.
pub proof fn law_builder_defaults_match_new(script: usize)
    ensures
        default_parts().with_script(script) == (ScriptParts {
            script,
            this: 0,
            source: 0,
            starting_lineno: 0,
        }),
{
}

} // verus!
