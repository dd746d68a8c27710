//! Operation dispatch: the choice between synchronous and asynchronous
//! execution, the reply values, and the registry of operation names.
use vstd::prelude::*;

use crate::error::OpError;

verus! {

/// The successful reply of a file operation.
#[derive(Clone, Copy, Debug, PartialEq, Eq, Structural)]
pub enum Reply {
    /// The handle of a newly opened resource.
    Rid(u32),
    /// An empty object.
    Empty,
}

/// How an invocation runs, chosen by whether the caller supplied a
/// correlation id.
#[derive(Clone, Copy, Debug, PartialEq, Eq, Structural)]
pub enum ExecMode {
    /// Run to completion within the call and return the outcome.
    Sync,
    /// Return at once; report the outcome later, tagged with this id.
    Async(u64),
}

/// The execution path of an invocation: asynchronous, tagged with the
/// correlation id, exactly when one is present.
pub fn exec_mode(promise_id: Option<u64>) -> (m: ExecMode)
    ensures
        promise_id matches Some(id) ==> m == ExecMode::Async(id),
        promise_id is None ==> m == ExecMode::Sync,
{
    match promise_id {
        Some(id) => ExecMode::Async(id),
        None => ExecMode::Sync,
    }
}

/// The handlers that an operation name can be bound to.
#[derive(Clone, Copy, Debug, PartialEq, Eq, Structural)]
pub enum OpCode {
    Add,
    Open,
    Close,
    Seek,
}

/// The handler bound to `name` among the first `n` registrations; a later
/// registration of a name overrides an earlier one.
pub open spec fn find_op(names: Seq<String>, codes: Seq<OpCode>, name: Seq<char>, n: int) -> Option<
    OpCode,
>
    decreases n,
{
    if n <= 0 {
        None
    } else if names[n - 1]@ == name {
        Some(codes[n - 1])
    } else {
        find_op(names, codes, name, n - 1)
    }
}

/// Registrations that agree on their first `n` entries bind the same names.
pub proof fn lemma_find_op_prefix(
    names1: Seq<String>,
    codes1: Seq<OpCode>,
    names2: Seq<String>,
    codes2: Seq<OpCode>,
    name: Seq<char>,
    n: int,
)
    requires
        0 <= n <= names1.len(),
        n <= names2.len(),
        n <= codes1.len(),
        n <= codes2.len(),
        forall|j: int| 0 <= j < n ==> #[trigger] names1[j]@ == names2[j]@ && codes1[j] == codes2[j],
    ensures
        find_op(names1, codes1, name, n) == find_op(names2, codes2, name, n),
    decreases n,
{
    if n > 0 {
        lemma_find_op_prefix(names1, codes1, names2, codes2, name, n - 1);
    }
}

/// The operation names known to the dispatcher and the handler of each.
pub struct OpRegistry {
    names: Vec<String>,
    codes: Vec<OpCode>,
}

impl OpRegistry {
    /// The registry is consistent: one handler per registered name.
    pub closed spec fn wf(&self) -> bool {
        self.names.len() == self.codes.len()
    }

    /// The handler that `name` dispatches to, if one is registered.
    pub closed spec fn handler_for(&self, name: Seq<char>) -> Option<OpCode> {
        find_op(self.names@, self.codes@, name, self.names.len() as int)
    }

    /// A registry with no operation.
    pub fn new() -> (r: Self)
        ensures
            r.wf(),
            forall|name: Seq<char>| #[trigger] r.handler_for(name) is None,
    {
        OpRegistry { names: Vec::new(), codes: Vec::new() }
    }

    /// Binds `name` to `code`, replacing any earlier binding of that name and
    /// leaving every other name as it was.
    pub fn register(&mut self, name: &str, code: OpCode)
        requires
            old(self).wf(),
        ensures
            final(self).wf(),
            final(self).handler_for(name@) == Some(code),
            forall|other: Seq<char>|
                other != name@ ==> #[trigger] final(self).handler_for(other) == old(
                    self,
                ).handler_for(other),
    {
        let ghost old_names = self.names@;
        let ghost old_codes = self.codes@;
        let n = name.to_owned();
        self.names.push(n);
        self.codes.push(code);
        assert forall|other: Seq<char>| other != name@ implies #[trigger] self.handler_for(other)
            == old(self).handler_for(other) by {
            lemma_find_op_prefix(
                self.names@,
                self.codes@,
                old_names,
                old_codes,
                other,
                old_names.len() as int,
            );
        }
    }

    /// The handler registered under `name`; `UnknownOp`, with the name, when
    /// there is none.
    pub fn lookup(&self, name: &str) -> (res: Result<OpCode, OpError>)
        requires
            self.wf(),
        ensures
            self.handler_for(name@) matches Some(c) ==> res == Ok::<OpCode, OpError>(c),
            self.handler_for(name@) is None ==> (res matches Err(OpError::UnknownOp(n)) && n@
                == name@),
    {
        let n = name.to_owned();
        let mut i: usize = self.names.len();
        while i > 0
            invariant
                self.wf(),
                i <= self.names.len(),
                n@ == name@,
                self.handler_for(name@) == find_op(self.names@, self.codes@, name@, i as int),
            decreases i,
        {
            i = i - 1;
            if self.names[i] == n {
                return Ok(self.codes[i]);
            }
        }
        Err(OpError::UnknownOp(n))
    }
}

} // verus!
