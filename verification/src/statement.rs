//! Options for preparing statements, and the parameters and columns a
//! prepared statement declares.

use vstd::prelude::*;

use crate::codes::{
    SQLITE_DONE, SQLITE_ERROR, SQLITE_MISUSE, SQLITE_PREPARE_DONT_LOG, SQLITE_PREPARE_NO_VTAB,
    SQLITE_PREPARE_PERSISTENT, SQLITE_ROW, SQLITE_TOOBIG,
};
use crate::error::{message_view, Error, ErrorCode};
use crate::types::{BindIndex, ColumnIndex};

verus! {

/// `flags` with the bits of `bit` set when `set`, cleared otherwise.
pub open spec fn with_bit(flags: u32, bit: u32, set: bool) -> u32 {
    if set {
        flags | bit
    } else {
        flags & !bit
    }
}

/// `true` when every bit of `bit` is set in `flags`.
pub open spec fn has_bit(flags: u32, bit: u32) -> bool {
    flags & bit == bit
}

/// Controls the behavior of preparing a statement: the flags handed to
/// `sqlite3_prepare_v3`.
#[derive(PartialEq, Eq, Structural, Clone, Copy, Debug)]
pub struct PrepareOptions(u32);

impl View for PrepareOptions {
    type V = u32;

    /// The `SQLITE_PREPARE_*` flags.
    open spec fn view(&self) -> u32 {
        self.flags()
    }
}

impl PrepareOptions {
    /// The `SQLITE_PREPARE_*` flags.
    pub closed spec fn flags(self) -> u32 {
        self.0
    }

    /// Options for a statement that is used once, or only a few times: no
    /// flag set.
    pub fn transient() -> (r: Self)
        ensures
            r@ == 0,
    {
        PrepareOptions(0)
    }

    /// Options for a statement that is kept and reused many times: SQLite
    /// is told that it is persistent.
    pub fn persistent() -> (r: Self)
        ensures
            r@ == SQLITE_PREPARE_PERSISTENT,
    {
        PrepareOptions(SQLITE_PREPARE_PERSISTENT)
    }

    /// Whether the statement may use virtual tables: clears
    /// `SQLITE_PREPARE_NO_VTAB` when `allowed`, sets it otherwise.
    pub fn allow_virtual_tables(&self, allowed: bool) -> (r: Self)
        ensures
            r@ == with_bit(self@, SQLITE_PREPARE_NO_VTAB, !allowed),
    {
        if allowed {
            PrepareOptions(self.0 & !SQLITE_PREPARE_NO_VTAB)
        } else {
            PrepareOptions(self.0 | SQLITE_PREPARE_NO_VTAB)
        }
    }

    /// Whether errors in preparing the statement are logged: clears
    /// `SQLITE_PREPARE_DONT_LOG` when `allowed`, sets it otherwise.
    pub fn log(&self, allowed: bool) -> (r: Self)
        ensures
            r@ == with_bit(self@, SQLITE_PREPARE_DONT_LOG, !allowed),
    {
        if allowed {
            PrepareOptions(self.0 & !SQLITE_PREPARE_DONT_LOG)
        } else {
            PrepareOptions(self.0 | SQLITE_PREPARE_DONT_LOG)
        }
    }

    /// The flags to pass to `sqlite3_prepare_v3`.
    pub fn into_inner(self) -> (r: u32)
        ensures
            r == self@,
    {
        self.0
    }
}

/// Setting or clearing a flag decides that flag, and only that flag: the
/// flag is set exactly when asked for, and every other bit is kept.
pub proof fn lemma_with_bit(flags: u32, bit: u32, set: bool)
    ensures
        has_bit(with_bit(flags, bit, set), bit) == (set || bit == 0),
        with_bit(flags, bit, set) & !bit == flags & !bit,
{
    assert((flags | bit) & bit == bit && (flags | bit) & !bit == flags & !bit && ((flags & !bit)
        & bit == bit) == (bit == 0) && (flags & !bit) & !bit == flags & !bit) by (bit_vector);
}

/// Of two settings of one flag, the later decides: setting a flag twice is
/// the same as setting it the second way.
pub proof fn lemma_with_bit_last_wins(flags: u32, bit: u32, first: bool, second: bool)
    ensures
        with_bit(with_bit(flags, bit, first), bit, second) == with_bit(flags, bit, second),
{
    assert(((flags | bit) | bit) == (flags | bit) && ((flags & !bit) | bit) == (flags | bit) && ((
    flags | bit) & !bit) == (flags & !bit) && ((flags & !bit) & !bit) == (flags & !bit))
        by (bit_vector);
}

/// Settings of two flags that share no bit do not interfere: they may be
/// made in either order.
pub proof fn lemma_with_bit_commutes(flags: u32, a: u32, x: bool, b: u32, y: bool)
    requires
        a & b == 0,
    ensures
        with_bit(with_bit(flags, a, x), b, y) == with_bit(with_bit(flags, b, y), a, x),
{
    assert(a & b == 0 ==> ((flags | a) | b) == ((flags | b) | a) && ((flags | a) & !b) == ((flags
        & !b) | a) && ((flags & !a) | b) == ((flags | b) & !a) && ((flags & !a) & !b) == ((flags
        & !b) & !a)) by (bit_vector);
}

/// The two settings of [`PrepareOptions`] are independent of each other and
/// of persistence: each decides its own flag, they may be applied in either
/// order, and the persistent flag is kept.
pub proof fn lemma_prepare_options_independent(options: PrepareOptions, vtab: bool, log: bool)
    ensures
        ({
            let r = with_bit(with_bit(options@, SQLITE_PREPARE_NO_VTAB, !vtab), SQLITE_PREPARE_DONT_LOG, !log);
            &&& r == with_bit(with_bit(options@, SQLITE_PREPARE_DONT_LOG, !log), SQLITE_PREPARE_NO_VTAB, !vtab)
            &&& has_bit(r, SQLITE_PREPARE_NO_VTAB) == !vtab
            &&& has_bit(r, SQLITE_PREPARE_DONT_LOG) == !log
            &&& has_bit(r, SQLITE_PREPARE_PERSISTENT) == has_bit(options@, SQLITE_PREPARE_PERSISTENT)
        }),
{
    let f = options@;
    let vt = !vtab;
    let lg = !log;
    assert(4u32 & 16u32 == 0) by (bit_vector);
    lemma_with_bit_commutes(f, SQLITE_PREPARE_NO_VTAB, vt, SQLITE_PREPARE_DONT_LOG, lg);
    assert(has_bit(with_bit(with_bit(f, 4u32, vt), 16u32, lg), 4u32) == vt && has_bit(
        with_bit(with_bit(f, 4u32, vt), 16u32, lg),
        16u32,
    ) == lg && has_bit(with_bit(with_bit(f, 4u32, vt), 16u32, lg), 1u32) == has_bit(f, 1u32))
        by (bit_vector);
}


/// The length in bytes of an SQL text, as the `i32` that
/// `sqlite3_prepare_v3` takes; the `SQLITE_TOOBIG` error when it does not
/// fit.
pub fn query_length(len: usize) -> (r: Result<i32, Error>)
    ensures
        r is Ok <==> len <= i32::MAX,
        r matches Ok(n) ==> n == len,
        r matches Err(e) ==> e.code_spec()@ == SQLITE_TOOBIG && e.is_bare(),
{
    if len <= 0x7fff_ffffusize {
        Ok(len as i32)
    } else {
        Err(Error::too_big())
    }
}

/// The outcome of preparing a statement, given the result code of
/// `sqlite3_prepare_v3`, whether it handed back a statement, the
/// connection's error message and the offset of the error in the SQL text
/// (negative when there is none): success when SQLite reported `SQLITE_OK`
/// and made a statement; otherwise the error for the code (`SQLITE_ERROR` in
/// place of `SQLITE_OK`), with the message and the location.
pub fn prepare_outcome(
    result: i32,
    has_statement: bool,
    message: Option<String>,
    offset: i32,
) -> (r: Result<(), Error>)
    ensures
        r is Ok <==> (result == 0 && has_statement),
        r is Err && result != 0 ==> (r matches Err(e) && {
            &&& e.code_spec()@ == result
            &&& e.message_spec() == message_view(message)
            &&& (e.location_spec() is Some <==> (message is Some && offset >= 0))
            &&& e.location_spec() matches Some(l) ==> l@ == offset
            &&& e.integration_spec() is None
        }),
        r is Err && result == 0 ==> (r matches Err(e) && e.code_spec()@ == SQLITE_ERROR
            && e.is_bare()),
{
    if result == 0 && has_statement {
        Ok(())
    } else {
        match Error::from_prepare_result(result, message, offset) {
            Some(error) => Err(error),
            None => Err(Error::new(ErrorCode::default())),
        }
    }
}

/// The outcome of a call whose result code is `result`: success for
/// `SQLITE_OK`, the error for that code otherwise.
pub fn check_call(result: i32) -> (r: Result<(), Error>)
    ensures
        r is Ok <==> result == 0,
        r matches Err(e) ==> e.code_spec()@ == result && e.is_bare(),
{
    match Error::from_code(result) {
        None => Ok(()),
        Some(error) => Err(error),
    }
}

/// The outcome of stepping a statement to its next row, given the result
/// code of `sqlite3_step` and the connection's error message: `true` when a
/// row is ready, `false` when the statement is done (or `sqlite3_step`
/// reported success), the error for any other code.
pub fn row_step(result: i32, message: Option<String>) -> (r: Result<bool, Error>)
    ensures
        r == Ok::<bool, Error>(true) <==> result == SQLITE_ROW,
        r == Ok::<bool, Error>(false) <==> (result == SQLITE_DONE || result == 0),
        r is Err <==> (result != SQLITE_ROW && result != SQLITE_DONE && result != 0),
        r matches Err(e) ==> {
            &&& e.code_spec()@ == result
            &&& e.message_spec() == message_view(message)
            &&& e.location_spec() is None
            &&& e.integration_spec() is None
        },
{
    if result == SQLITE_ROW {
        Ok(true)
    } else if result == SQLITE_DONE {
        Ok(false)
    } else {
        match Error::from_result(result, message) {
            Some(error) => Err(error),
            None => Ok(false),
        }
    }
}

/// The outcome of running a statement to completion, given the result code
/// of `sqlite3_step` and the connection's error message: success when the
/// statement is done, the `SQLITE_MISUSE` error when it returned a row, and
/// the error for any other code (`SQLITE_ERROR` in place of `SQLITE_OK`).
pub fn execute_step(result: i32, message: Option<String>) -> (r: Result<(), Error>)
    ensures
        r is Ok <==> result == SQLITE_DONE,
        result == SQLITE_ROW ==> (r matches Err(e) && e.code_spec()@ == SQLITE_MISUSE
            && e.is_bare()),
        result != SQLITE_DONE && result != SQLITE_ROW && result != 0 ==> (r matches Err(e) && {
            &&& e.code_spec()@ == result
            &&& e.message_spec() == message_view(message)
            &&& e.location_spec() is None
            &&& e.integration_spec() is None
        }),
        result == 0 ==> (r matches Err(e) && e.code_spec()@ == SQLITE_ERROR && e.is_bare()),
{
    if result == SQLITE_DONE {
        Ok(())
    } else if result == SQLITE_ROW {
        Err(Error::misuse())
    } else {
        match Error::from_result(result, message) {
            Some(error) => Err(error),
            None => Err(Error::new(ErrorCode::default())),
        }
    }
}

/// The integers from `from` up to and including `to` (empty when `to` is
/// below `from`).
pub open spec fn inclusive_range(from: int, to: int) -> Seq<int> {
    Seq::new(if to >= from { (to - from + 1) as nat } else { 0 }, |i: int| from + i)
}

/// The text of each name of a list of optional names.
pub open spec fn names_view(names: Seq<Option<String>>) -> Seq<Option<Seq<char>>> {
    names.map_values(|n: Option<String>| match n {
        Some(s) => Some(s@),
        None => None,
    })
}

/// The position of the first name in `names` equal to `name`, if any.
pub open spec fn first_named(names: Seq<Option<Seq<char>>>, name: Seq<char>) -> Option<int> {
    if exists|i: int| 0 <= i < names.len() && names[i] == Some(name) {
        Some(
            choose|i: int|
                0 <= i < names.len() && names[i] == Some(name) && forall|j: int|
                    0 <= j < i ==> names[j] != Some(name),
        )
    } else {
        None
    }
}

/// What [`first_named`] finds is a position holding the name, with no
/// earlier position holding it: looking up a parameter or column by name
/// and then asking for the name at that index gives the name back.
pub proof fn lemma_first_named_holds_name(names: Seq<Option<Seq<char>>>, name: Seq<char>)
    ensures
        first_named(names, name) matches Some(k) ==> {
            &&& 0 <= k < names.len()
            &&& names[k] == Some(name)
            &&& forall|j: int| 0 <= j < k ==> names[j] != Some(name)
        },
        first_named(names, name) is None ==> forall|j: int|
            0 <= j < names.len() ==> names[j] != Some(name),
{
    if exists|i: int| 0 <= i < names.len() && names[i] == Some(name) {
        let i = choose|i: int| 0 <= i < names.len() && names[i] == Some(name);
        lemma_earliest_named(names, name, i);
    }
}

/// Below any position holding the name there is an earliest one.
proof fn lemma_earliest_named(names: Seq<Option<Seq<char>>>, name: Seq<char>, i: int)
    requires
        0 <= i < names.len(),
        names[i] == Some(name),
    ensures
        exists|k: int|
            0 <= k < names.len() && names[k] == Some(name) && forall|j: int|
                0 <= j < k ==> names[j] != Some(name),
    decreases i,
{
    if exists|j: int| 0 <= j < i && names[j] == Some(name) {
        let j = choose|j: int| 0 <= j < i && names[j] == Some(name);
        lemma_earliest_named(names, name, j);
    } else {
        assert(forall|j: int| 0 <= j < i ==> names[j] != Some(name));
    }
}

/// The first match found by a scan from the front is the one
/// [`first_named`] picks.
proof fn lemma_first_named(names: Seq<Option<Seq<char>>>, name: Seq<char>, i: int)
    requires
        0 <= i < names.len(),
        names[i] == Some(name),
        forall|j: int| 0 <= j < i ==> names[j] != Some(name),
    ensures
        first_named(names, name) == Some(i),
{
    let k = choose|k: int|
        0 <= k < names.len() && names[k] == Some(name) && forall|j: int|
            0 <= j < k ==> names[j] != Some(name);
    assert(0 <= k < names.len() && names[k] == Some(name) && forall|j: int|
        0 <= j < k ==> names[j] != Some(name));
    assert(k == i);
}

/// The scan state of a [`StatementParameterIter`].
#[derive(Copy, Clone, Debug)]
enum ParameterIterState {
    Next { current: BindIndex, max: BindIndex },
    Done,
}

/// The indexes of the parameters a statement declares, from the first to
/// the last.
#[derive(Copy, Clone, Debug)]
pub struct StatementParameterIter {
    state: ParameterIterState,
}

impl StatementParameterIter {
    #[verifier::type_invariant]
    spec fn inv(self) -> bool {
        match self.state {
            ParameterIterState::Next { current, max } => current@ <= max@,
            ParameterIterState::Done => true,
        }
    }

    /// The indexes still to come, in order.
    pub closed spec fn remaining(self) -> Seq<int> {
        match self.state {
            ParameterIterState::Next { current, max } => inclusive_range(current@ as int, max@ as int),
            ParameterIterState::Done => Seq::empty(),
        }
    }

    /// The indexes `1` to `count`.
    fn new(count: i32) -> (r: Self)
        ensures
            r.remaining() == inclusive_range(1, count as int),
    {
        let state = match BindIndex::new(count) {
            Ok(max) => ParameterIterState::Next { current: BindIndex::initial(), max },
            Err(_) => ParameterIterState::Done,
        };
        StatementParameterIter { state }
    }

    /// The next index, or `None` once every index was returned.
    pub fn next(&mut self) -> (r: Option<BindIndex>)
        ensures
            old(self).remaining().len() == 0 ==> r is None && final(self).remaining() == old(
                self,
            ).remaining(),
            old(self).remaining().len() > 0 ==> (r matches Some(i) && i@ == old(
                self,
            ).remaining()[0] && final(self).remaining() == old(self).remaining().drop_first()),
    {
        proof {
            use_type_invariant(&*self);
        }
        match self.state {
            ParameterIterState::Next { current, max } => {
                let state = if current.value() < max.value() {
                    ParameterIterState::Next { current: current.next(), max }
                } else {
                    ParameterIterState::Done
                };
                self.state = state;
                proof {
                    assert(final(self).remaining() =~= old(self).remaining().drop_first());
                }
                Some(current)
            },
            ParameterIterState::Done => None,
        }
    }
}

/// The indexes of the columns a statement returns, from the first to the
/// last.
#[derive(Debug)]
pub struct StatementColumnIter {
    current: i32,
    count: i32,
}

impl StatementColumnIter {
    #[verifier::type_invariant]
    spec fn inv(self) -> bool {
        self.current >= 0
    }

    /// The indexes still to come, in order.
    pub closed spec fn remaining(self) -> Seq<int> {
        inclusive_range(self.current as int, self.count - 1)
    }

    /// The indexes `0` to `count - 1`.
    fn new(count: i32) -> (r: Self)
        ensures
            r.remaining() == inclusive_range(0, count - 1),
    {
        StatementColumnIter { current: 0, count }
    }

    /// The next index, or `None` once every index was returned.
    pub fn next(&mut self) -> (r: Option<ColumnIndex>)
        ensures
            old(self).remaining().len() == 0 ==> r is None && final(self).remaining() == old(
                self,
            ).remaining(),
            old(self).remaining().len() > 0 ==> (r matches Some(i) && i@ == old(
                self,
            ).remaining()[0] && final(self).remaining() == old(self).remaining().drop_first()),
    {
        proof {
            use_type_invariant(&*self);
        }
        let current = self.current;
        if current < self.count {
            self.current = current + 1;
            proof {
                assert(final(self).remaining() =~= old(self).remaining().drop_first());
            }
            Some(ColumnIndex::new(current))
        } else {
            None
        }
    }
}

/// The parameters a prepared statement declares, with their names (a
/// parameter written `?` or `?NNN` has none).
#[derive(Debug)]
pub struct StatementParameters {
    names: Vec<Option<String>>,
}

impl View for StatementParameters {
    type V = Seq<Option<Seq<char>>>;

    /// The name of each parameter, the first parameter first.
    open spec fn view(&self) -> Seq<Option<Seq<char>>> {
        names_view(self.names_spec())
    }
}

impl StatementParameters {
    #[verifier::type_invariant]
    spec fn inv(self) -> bool {
        self.names@.len() <= i32::MAX
    }

    /// The names as given.
    pub closed spec fn names_spec(self) -> Seq<Option<String>> {
        self.names@
    }

    /// The parameters named `names`, the first parameter first.
    pub fn new(names: Vec<Option<String>>) -> (r: Self)
        requires
            names.len() <= i32::MAX,
        ensures
            r.names_spec() == names@,
    {
        StatementParameters { names }
    }

    /// How many parameters the statement declares.
    pub fn len(&self) -> (r: usize)
        ensures
            r == self@.len(),
    {
        self.names.len()
    }

    /// The name of the parameter at `index`, or `None` if there is no such
    /// parameter or it has no name.
    pub fn name(&self, index: BindIndex) -> (r: Option<&str>)
        ensures
            r is Some <==> index@ <= self@.len() && self@[index@ - 1] is Some,
            r matches Some(n) ==> self@[index@ - 1] == Some(n@),
    {
        let i = index.value();
        let position = (i - 1) as usize;
        if position < self.names.len() {
            match &self.names[position] {
                Some(n) => Some(n.as_str()),
                None => None,
            }
        } else {
            None
        }
    }

    /// The index of the first parameter named `name`, if any.
    pub fn index(&self, name: &str) -> (r: Option<BindIndex>)
        ensures
            r matches Some(i) ==> first_named(self@, name@) == Some(i@ - 1),
            r is None ==> first_named(self@, name@) is None,
    {
        proof {
            use_type_invariant(self);
        }
        let target = name.to_owned();
        let mut position: usize = 0;
        while position < self.names.len()
            invariant
                position <= self.names@.len() <= i32::MAX,
                target@ == name@,
                forall|j: int| 0 <= j < position ==> self@[j] != Some(name@),
            decreases self.names@.len() - position,
        {
            if let Some(n) = &self.names[position] {
                if *n == target {
                    proof {
                        lemma_first_named(self@, name@, position as int);
                    }
                    let index = BindIndex::new((position + 1) as i32);
                    return match index {
                        Ok(index) => Some(index),
                        Err(_) => None,
                    };
                }
            }
            position += 1;
        }
        None
    }

    /// The indexes of all the parameters, from the first to the last.
    pub fn iter(&self) -> (r: StatementParameterIter)
        ensures
            r.remaining() == inclusive_range(1, self@.len() as int),
    {
        proof {
            use_type_invariant(self);
        }
        StatementParameterIter::new(self.names.len() as i32)
    }
}

/// The columns a prepared statement returns, with their names.
#[derive(Debug)]
pub struct StatementColumns {
    names: Vec<Option<String>>,
}

impl View for StatementColumns {
    type V = Seq<Option<Seq<char>>>;

    /// The name of each column, the first column first.
    open spec fn view(&self) -> Seq<Option<Seq<char>>> {
        names_view(self.names_spec())
    }
}

impl StatementColumns {
    #[verifier::type_invariant]
    spec fn inv(self) -> bool {
        self.names@.len() <= i32::MAX
    }

    /// The names as given.
    pub closed spec fn names_spec(self) -> Seq<Option<String>> {
        self.names@
    }

    /// The columns named `names`, the first column first (`None` where
    /// SQLite could not give a name).
    pub fn new(names: Vec<Option<String>>) -> (r: Self)
        requires
            names.len() <= i32::MAX,
        ensures
            r.names_spec() == names@,
    {
        StatementColumns { names }
    }

    /// How many columns the statement returns.
    pub fn len(&self) -> (r: usize)
        ensures
            r == self@.len(),
    {
        self.names.len()
    }

    /// The name of the column at `column`, or `None` if there is no such
    /// column or it has no name.
    pub fn name(&self, column: ColumnIndex) -> (r: Option<&str>)
        ensures
            r is Some <==> column@ < self@.len() && self@[column@ as int] is Some,
            r matches Some(n) ==> self@[column@ as int] == Some(n@),
    {
        let position = column.value() as usize;
        if position < self.names.len() {
            match &self.names[position] {
                Some(n) => Some(n.as_str()),
                None => None,
            }
        } else {
            None
        }
    }

    /// The index of the first column named `name`, if any.
    pub fn index(&self, name: &str) -> (r: Option<ColumnIndex>)
        ensures
            r matches Some(i) ==> first_named(self@, name@) == Some(i@ as int),
            r is None ==> first_named(self@, name@) is None,
    {
        proof {
            use_type_invariant(self);
        }
        let target = name.to_owned();
        let mut position: usize = 0;
        while position < self.names.len()
            invariant
                position <= self.names@.len() <= i32::MAX,
                target@ == name@,
                forall|j: int| 0 <= j < position ==> self@[j] != Some(name@),
            decreases self.names@.len() - position,
        {
            if let Some(n) = &self.names[position] {
                if *n == target {
                    proof {
                        lemma_first_named(self@, name@, position as int);
                    }
                    return Some(ColumnIndex::new(position as i32));
                }
            }
            position += 1;
        }
        None
    }

    /// The indexes of all the columns, from the first to the last.
    pub fn iter(&self) -> (r: StatementColumnIter)
        ensures
            r.remaining() == inclusive_range(0, self@.len() - 1),
    {
        proof {
            use_type_invariant(self);
        }
        StatementColumnIter::new(self.names.len() as i32)
    }
}

} // verus!
