//! Utilities for processing query results: the values of a row, one by one
//! or all at once, and rows as records.
use crate::error::{ConversionError, Failure};
use crate::from_value::{converts, take_at, TryFromValue};
use crate::proto::{Response, ResponseResult, ResultSet, Row, Value};
use crate::wire::{wires_of, Wire};
use core::marker::PhantomData;
use prost::DecodeError;
use vstd::prelude::*;
use vstd::string::StringExecFns;

verus! {

/// The encoded result set that a response carries, if it carries one.
pub open spec fn result_set_bytes(response: Response) -> Option<Seq<u8>> {
    match response.result {
        Some(ResponseResult::ResultSet(payload)) => match payload.data {
            Some(any) => Some(any.value@),
            None => None,
        },
        _ => None,
    }
}

impl ResultSet {
    /// Finds the encoded result set in a response. A response that carries
    /// none is incompatible.
    pub fn encoded_in(response: &Response) -> (r: Result<&Vec<u8>, ConversionError>)
        ensures
            match r {
                Ok(bytes) => result_set_bytes(*response) == Some(bytes@),
                Err(e) => result_set_bytes(*response) is None && e.kind@ == Failure::Incompatible,
            },
    {
        match &response.result {
            Some(ResponseResult::ResultSet(payload)) => match &payload.data {
                Some(any) => Ok(&any.value),
                None => Err(ConversionError::incompatible(&response.result, "ResultSet")),
            },
            other => Err(ConversionError::incompatible(other, "ResultSet")),
        }
    }

    /// Turns what the decoder made of the bytes of [`encoded_in`](
    /// ResultSet::encoded_in) into the result of the conversion: the result
    /// set, or the decoder's failure as a [`ConversionError`].
    pub fn from_decoded(response: &Response, decoded: Result<ResultSet, DecodeError>) -> (r: Result<
        ResultSet,
        ConversionError,
    >)
        ensures
            match decoded {
                Ok(result_set) => r == Ok::<ResultSet, ConversionError>(result_set),
                Err(error) => r is Err && r->Err_0.kind@ == Failure::DecodeFailure(error),
            },
    {
        match decoded {
            Ok(result_set) => Ok(result_set),
            Err(error) => Err(ConversionError::decode_error(response, "ResultSet", error)),
        }
    }
}

impl Row {
    /// Takes the value of a single column at a given index and converts it to
    /// the desired type.
    ///
    /// The value is moved out of the row, not copied: a value without a
    /// variant stays in its place.
    ///
    /// An index beyond the row is a wrong number of items.
    pub fn try_take<T: TryFromValue>(&mut self, at: usize) -> (r: Result<T, ConversionError>)
        ensures
            at >= old(self).values@.len() ==> *final(self) == *old(self) && r is Err
                && r->Err_0.kind@ == (Failure::WrongNumberOfItems {
                actual: old(self).values@.len(),
                expected: at as nat,
            }),
            at < old(self).values@.len() ==> final(self).values@ == old(self).values@.update(
                at as int,
                Value { inner: None },
            ) && converts(old(self).values@[at as int]@, r),
    {
        let len = self.values.len();
        if at >= len {
            Err(ConversionError::wrong_number_of_items(&*self, "value of a row", len, at))
        } else {
            T::try_from(take_at(&mut self.values, at))
        }
    }

    /// Returns a copy of the value at a given index, converted to the desired
    /// type. Unlike [`Row::try_take`], this leaves the row as it is, at the
    /// expense of a deep copy of the value.
    ///
    /// An index beyond the row is a wrong number of items.
    pub fn try_get<T: TryFromValue>(&self, at: usize) -> (r: Result<T, ConversionError>)
        ensures
            at >= self.values@.len() ==> r is Err && r->Err_0.kind@ == (
            Failure::WrongNumberOfItems { actual: self.values@.len(), expected: at as nat }),
            at < self.values@.len() ==> converts(self.values@[at as int]@, r),
    {
        let len = self.values.len();
        if at >= len {
            Err(ConversionError::wrong_number_of_items(self, "value of a row", len, at))
        } else {
            T::try_from(self.values[at].clone())
        }
    }

    /// Same as [`Row::try_get`].
    pub fn get<T: TryFromValue>(&self, index: usize) -> (r: Result<T, ConversionError>)
        ensures
            index >= self.values@.len() ==> r is Err && r->Err_0.kind@ == (
            Failure::WrongNumberOfItems { actual: self.values@.len(), expected: index as nat }),
            index < self.values@.len() ==> converts(self.values@[index as int]@, r),
    {
        self.try_get(index)
    }

    /// Converts the row containing a single value into the desired type.
    ///
    /// A row of any other number of values is a wrong number of items.
    pub fn into_single<T: TryFromValue>(self) -> (r: Result<T, ConversionError>)
        ensures
            self.values@.len() != 1 ==> r is Err && r->Err_0.kind@ == (
            Failure::WrongNumberOfItems { actual: self.values@.len(), expected: 1 }),
            self.values@.len() == 1 ==> converts(self.values@[0]@, r),
    {
        let len = self.values.len();
        if len != 1 {
            Err(ConversionError::wrong_number_of_items(self, "value of a row", len, 1))
        } else {
            let mut values = self.values;
            T::try_from(take_at(&mut values, 0))
        }
    }

    /// Converts the whole row as a collection of its values converts: to a
    /// tuple of as many components, or to a vector.
    pub fn try_into<T: TryFromValue>(self) -> (r: Result<T, ConversionError>)
        ensures
            converts(Wire::Collection(wires_of(self.values@)), r),
    {
        T::try_from(Value::raw_collection(self.values))
    }
}

/// Error returned when a [`ResultSetMapper`] could not be constructed.
#[derive(Debug, Clone, PartialEq, Eq)]
pub enum MapperError {
    /// The result set has no column of this name.
    ColumnNotFound(String),
}

impl MapperError {
    /// The name of the column that was not found.
    pub open spec fn column(&self) -> Seq<char> {
        match self {
            MapperError::ColumnNotFound(name) => name@,
        }
    }

    /// What `Display` would print: a sentence naming the column.
    pub fn message(&self) -> (text: String)
        ensures
            text@ == "Column "@ + self.column() + " not found in the ResultSet"@,
    {
        match self {
            MapperError::ColumnNotFound(name) => {
                let mut text = "Column ".to_owned();
                text.append(name.as_str());
                text.append(" not found in the ResultSet");
                text
            },
        }
    }
}

/// The names and positions of columns, as models. The columns are a vector
/// that is searched by name, for the same reason as the fields of a user
/// defined type: see [`udt`](crate::udt).
pub open spec fn columns_of(column_positions: Seq<(String, usize)>) -> Seq<(Seq<char>, usize)> {
    Seq::new(column_positions.len(), |i: int| (column_positions[i].0@, column_positions[i].1))
}

/// The place in `columns` of the entry that gives the position of the column
/// named `name`: the last of that name; `-1` where there is none.
pub open spec fn last_named(columns: Seq<(Seq<char>, usize)>, name: Seq<char>) -> int
    decreases columns.len(),
{
    if columns.len() == 0 {
        -1
    } else if columns.last().0 == name {
        columns.len() - 1
    } else {
        last_named(columns.drop_last(), name)
    }
}

/// The position of the column named `name`.
pub open spec fn column_position(columns: Seq<(Seq<char>, usize)>, name: Seq<char>) -> Option<
    usize,
> {
    let at = last_named(columns, name);
    if at >= 0 {
        Some(columns[at].1)
    } else {
        None
    }
}

/// `last_named` is the greatest place that bears the name.
pub proof fn lemma_last_named(columns: Seq<(Seq<char>, usize)>, name: Seq<char>)
    ensures
        -1 <= last_named(columns, name) < columns.len(),
        last_named(columns, name) >= 0 ==> columns[last_named(columns, name)].0 == name,
        forall|j: int|
            last_named(columns, name) < j < columns.len() ==> (#[trigger] columns[j]).0 != name,
    decreases columns.len(),
{
    if columns.len() > 0 && columns.last().0 != name {
        let front = columns.drop_last();
        lemma_last_named(front, name);
        assert forall|j: int| last_named(columns, name) < j < columns.len() implies (
        #[trigger] columns[j]).0 != name by {
            if j < front.len() {
                assert(columns[j] == front[j]);
            }
        }
    }
}

/// A place that bears the name, with none after it, is `last_named`.
pub proof fn lemma_last_named_is(columns: Seq<(Seq<char>, usize)>, name: Seq<char>, at: int)
    requires
        -1 <= at < columns.len(),
        at >= 0 ==> columns[at].0 == name,
        forall|j: int| at < j < columns.len() ==> (#[trigger] columns[j]).0 != name,
    ensures
        last_named(columns, name) == at,
{
    lemma_last_named(columns, name);
    let l = last_named(columns, name);
    if l > at {
        assert(columns[l].0 != name);
    }
}

/// The positions of the columns named `names`, in the order of the names; or
/// the first name that no column bears.
pub open spec fn resolved(names: Seq<Seq<char>>, columns: Seq<(Seq<char>, usize)>) -> Result<
    Seq<usize>,
    Seq<char>,
>
    decreases names.len(),
{
    if names.len() == 0 {
        Ok(Seq::empty())
    } else {
        match resolved(names.drop_last(), columns) {
            Err(missing) => Err(missing),
            Ok(positions) => match column_position(columns, names.last()) {
                None => Err(names.last()),
                Some(position) => Ok(positions.push(position)),
            },
        }
    }
}

/// A name among the first `k` that no column bears decides.
pub proof fn lemma_resolved_fails_early(
    names: Seq<Seq<char>>,
    columns: Seq<(Seq<char>, usize)>,
    k: int,
)
    requires
        0 <= k <= names.len(),
        resolved(names.take(k), columns) is Err,
    ensures
        resolved(names, columns) == resolved(names.take(k), columns),
    decreases names.len() - k,
{
    if k < names.len() {
        assert(names.take(k + 1).drop_last() == names.take(k));
        lemma_resolved_fails_early(names, columns, k + 1);
    } else {
        assert(names.take(k) == names);
    }
}

/// Where every name is found, there is one position for each name, and it is
/// the position of the column of that name.
pub proof fn lemma_resolved_pointwise(names: Seq<Seq<char>>, columns: Seq<(Seq<char>, usize)>)
    ensures
        resolved(names, columns) matches Ok(positions) ==> positions.len() == names.len()
            && forall|i: int|
            0 <= i < names.len() ==> column_position(columns, names[i]) == Some(
                #[trigger] positions[i],
            ),
    decreases names.len(),
{
    if names.len() > 0 {
        let front = names.drop_last();
        lemma_resolved_pointwise(front, columns);
        assert(forall|i: int| 0 <= i < front.len() ==> front[i] == names[i]);
    }
}

/// The position of the column named `name`, if there is one.
pub fn find_column(column_positions: &Vec<(String, usize)>, name: &str) -> (found: Option<usize>)
    ensures
        found == column_position(columns_of(column_positions@), name@),
{
    let wanted = name.to_owned();
    let mut i = column_positions.len();
    while i > 0
        invariant
            i <= column_positions@.len(),
            wanted@ == name@,
            forall|j: int|
                i <= j < column_positions@.len() ==> (#[trigger] columns_of(
                    column_positions@,
                )[j]).0 != name@,
        decreases i,
    {
        i -= 1;
        if column_positions[i].0 == wanted {
            proof {
                lemma_last_named_is(columns_of(column_positions@), name@, i as int);
            }
            return Some(column_positions[i].1);
        }
    }
    proof {
        lemma_last_named_is(columns_of(column_positions@), name@, -1);
    }
    None
}

/// The views of the names, in order.
pub open spec fn views_of(names: Seq<&str>) -> Seq<Seq<char>> {
    Seq::new(names.len(), |i: int| names[i]@)
}

/// Matches field names to column positions: for each name in order, the
/// position of the column of that name. The first name that no column bears
/// is the error.
pub fn field_to_column_pos(names: &Vec<&str>, column_positions: &Vec<(String, usize)>) -> (r:
    Result<Vec<usize>, MapperError>)
    ensures
        match r {
            Ok(positions) => resolved(views_of(names@), columns_of(column_positions@)) == Ok::<
                Seq<usize>,
                Seq<char>,
            >(positions@),
            Err(e) => resolved(views_of(names@), columns_of(column_positions@)) == Err::<
                Seq<usize>,
                Seq<char>,
            >(e.column()),
        },
{
    let ghost wanted = views_of(names@);
    let ghost columns = columns_of(column_positions@);
    let mut positions: Vec<usize> = Vec::new();
    let mut i: usize = 0;
    assert(wanted.take(0) =~= Seq::<Seq<char>>::empty());
    while i < names.len()
        invariant
            i <= names@.len(),
            wanted == views_of(names@),
            columns == columns_of(column_positions@),
            resolved(wanted.take(i as int), columns) == Ok::<Seq<usize>, Seq<char>>(positions@),
        decreases names@.len() - i,
    {
        proof {
            assert(wanted.take(i + 1).drop_last() == wanted.take(i as int));
            assert(wanted.take(i + 1).last() == names@[i as int]@);
        }
        match find_column(column_positions, names[i]) {
            Some(position) => {
                positions.push(position);
            },
            None => {
                proof {
                    assert(resolved(wanted.take(i + 1), columns) is Err);
                    lemma_resolved_fails_early(wanted, columns, i + 1);
                }
                return Err(MapperError::ColumnNotFound(names[i].to_owned()));
            },
        }
        i += 1;
    }
    assert(wanted.take(i as int) == wanted);
    Ok(positions)
}

/// Matches the fields of the `Self` type to the positions of the columns
/// that they are read from.
pub trait ColumnPositions {
    /// The names of the columns that the fields are read from, one for each
    /// field that is read from a row, in the order of the fields. An
    /// implementation that is not verified need not say.
    open spec fn column_names() -> Seq<Seq<char>> {
        arbitrary()
    }

    /// For each field that is read from a row, the position of its column in
    /// `column_positions`; and the first column that is not there, if one is
    /// not. [`field_to_column_pos`] computes this from the names.
    fn field_to_column_pos(column_positions: &Vec<(String, usize)>) -> (r: Result<
        Vec<usize>,
        MapperError,
    >)
        ensures
            match r {
                Ok(positions) => resolved(Self::column_names(), columns_of(column_positions@))
                    == Ok::<Seq<usize>, Seq<char>>(positions@),
                Err(e) => resolved(Self::column_names(), columns_of(column_positions@)) == Err::<
                    Seq<usize>,
                    Seq<char>,
                >(e.column()),
            },
    ;
}

/// Converts rows to values of a user type.
pub trait TryFromRow: ColumnPositions + Sized {
    /// The mathematical model of the user type.
    type Model;

    /// The model of a value of the user type. An implementation that is not
    /// verified need not say.
    open spec fn model(&self) -> Self::Model {
        arbitrary()
    }

    /// What converting a row yields, where the field `i` is read from the
    /// value at `positions[i]`. An implementation that is not verified need
    /// not say.
    open spec fn unpacked(row: Seq<Wire>, positions: Seq<usize>) -> Result<Self::Model, Failure> {
        arbitrary()
    }

    /// Attempts to convert a row into `Self`. The position of the value of
    /// each field is given by `column_positions`, which has one position for
    /// each of [`column_names`](ColumnPositions::column_names).
    ///
    /// The row must hold a value at each of the positions;
    /// [`ResultSetMapper::try_unpack`] sees to that.
    fn try_unpack(row: Row, column_positions: &Vec<usize>) -> (r: Result<Self, ConversionError>)
        requires
            column_positions@.len() == Self::column_names().len(),
            forall|i: int|
                0 <= i < column_positions@.len() ==> (#[trigger] column_positions@[i])
                    < row.values@.len(),
        ensures
            match r {
                Ok(x) => Self::unpacked(wires_of(row.values@), column_positions@) == Ok::<
                    Self::Model,
                    Failure,
                >(x.model()),
                Err(e) => Self::unpacked(wires_of(row.values@), column_positions@) == Err::<
                    Self::Model,
                    Failure,
                >(e.kind@),
            },
    ;
}

/// The least number of values that a row must have for all `positions` to be
/// in it.
pub open spec fn row_len_for(positions: Seq<usize>) -> nat
    decreases positions.len(),
{
    if positions.len() == 0 {
        0
    } else {
        let front = row_len_for(positions.drop_last());
        if positions.last() + 1 > front {
            (positions.last() + 1) as nat
        } else {
            front
        }
    }
}

/// Every position is below `row_len_for`.
pub proof fn lemma_row_len_for(positions: Seq<usize>)
    ensures
        forall|i: int|
            0 <= i < positions.len() ==> (#[trigger] positions[i]) < row_len_for(positions),
    decreases positions.len(),
{
    if positions.len() > 0 {
        let front = positions.drop_last();
        lemma_row_len_for(front);
        assert forall|i: int| 0 <= i < positions.len() implies (#[trigger] positions[i])
            < row_len_for(positions) by {
            if i < front.len() {
                assert(positions[i] == front[i]);
            }
        }
    }
}

/// `ResultSetMapper` converts a [`Row`] into `T`.
///
/// Call [`ResultSet::mapper`] to obtain one. It holds what the rows of one
/// result set share: for each field of `T`, the position of its column. It
/// must not be used on the rows of a result set with other columns.
pub struct ResultSetMapper<T> {
    // The columns of a row may be ordered differently than the fields of T.
    // The entries correspond to the fields; their values are positions of
    // columns: `vec![1, 0]` reads field 0 from column 1 and field 1 from
    // column 0.
    field_to_column_pos: Vec<usize>,
    // The least number of values that a row must have to be unpacked.
    required_row_len: usize,
    phantom_data: PhantomData<T>,
}

impl<T: TryFromRow> ResultSetMapper<T> {
    /// For each field of `T`, the position of its column.
    pub closed spec fn positions(&self) -> Seq<usize> {
        self.field_to_column_pos@
    }

    /// The least number of values that a row must have to be unpacked.
    pub closed spec fn required_row_len(&self) -> nat {
        self.required_row_len as nat
    }

    /// There is one position for each field, and a row of the required
    /// length holds all of them.
    pub closed spec fn wf(&self) -> bool {
        &&& self.field_to_column_pos@.len() == T::column_names().len()
        &&& self.required_row_len == row_len_for(self.field_to_column_pos@)
    }

    /// Attempts to convert the `row` into `T`.
    ///
    /// The row may hold more values than `T` needs; they are lost. A row
    /// that is too short for the positions of the columns is a wrong number
    /// of items, and no value of it is converted. Where a value fails to
    /// convert, its error is returned.
    pub fn try_unpack(&self, row: Row) -> (r: Result<T, ConversionError>)
        requires
            self.wf(),
        ensures
            row.values@.len() < self.required_row_len() ==> r is Err && r->Err_0.kind@ == (
            Failure::WrongNumberOfItems {
                actual: row.values@.len(),
                expected: self.required_row_len(),
            }),
            row.values@.len() >= self.required_row_len() ==> match r {
                Ok(x) => T::unpacked(wires_of(row.values@), self.positions()) == Ok::<
                    T::Model,
                    Failure,
                >(x.model()),
                Err(e) => T::unpacked(wires_of(row.values@), self.positions()) == Err::<
                    T::Model,
                    Failure,
                >(e.kind@),
            },
    {
        let actual_len = row.values.len();
        if actual_len < self.required_row_len {
            return Err(
                ConversionError::wrong_number_of_items(
                    row,
                    "record",
                    actual_len,
                    self.required_row_len,
                ),
            );
        }
        proof {
            lemma_row_len_for(self.field_to_column_pos@);
        }
        T::try_unpack(row, &self.field_to_column_pos)
    }
}

/// The positions of the columns by their names: each column with its place
/// in the list.
pub open spec fn positions_of_columns(names: Seq<Seq<char>>) -> Seq<(Seq<char>, usize)> {
    Seq::new(names.len(), |i: int| (names[i], i as usize))
}

impl ResultSet {
    /// The names of the columns, in order.
    pub open spec fn column_names(&self) -> Seq<Seq<char>> {
        Seq::new(self.columns@.len(), |i: int| self.columns@[i].name@)
    }

    /// Creates a mapper that can convert the rows of this result set to
    /// values of type `T`.
    ///
    /// The mapper is made where the result set has a column for every field
    /// of `T`; the first field whose column is missing is the error. Where two
    /// columns have one name, the later one is read.
    ///
    /// The types of the columns are not checked: a value that does not fit
    /// its field is an error of [`ResultSetMapper::try_unpack`].
    pub fn mapper<T: TryFromRow>(&self) -> (r: Result<ResultSetMapper<T>, MapperError>)
        ensures
            match r {
                Ok(mapper) => {
                    &&& mapper.wf()
                    &&& resolved(T::column_names(), positions_of_columns(self.column_names()))
                        == Ok::<Seq<usize>, Seq<char>>(mapper.positions())
                    &&& mapper.required_row_len() == row_len_for(mapper.positions())
                },
                Err(e) => resolved(T::column_names(), positions_of_columns(self.column_names()))
                    == Err::<Seq<usize>, Seq<char>>(e.column()),
            },
    {
        let column_positions = self.column_positions();
        let positions = match T::field_to_column_pos(&column_positions) {
            Ok(positions) => positions,
            Err(e) => {
                return Err(e);
            },
        };
        proof {
            lemma_resolved_pointwise(T::column_names(), columns_of(column_positions@));
            assert forall|i: int| 0 <= i < positions@.len() implies (#[trigger] positions@[i])
                < self.columns@.len() by {
                let name = T::column_names()[i];
                lemma_last_named(columns_of(column_positions@), name);
            }
        }
        let n = self.columns.len();
        let required_row_len = required_len(&positions, Ghost(n as nat));
        Ok(
            ResultSetMapper {
                required_row_len,
                field_to_column_pos: positions,
                phantom_data: PhantomData,
            },
        )
    }

    /// Returns the names of the columns with their positions. The first
    /// column is at position 0.
    pub fn column_positions(&self) -> (column_positions: Vec<(String, usize)>)
        ensures
            columns_of(column_positions@) == positions_of_columns(self.column_names()),
    {
        let mut result: Vec<(String, usize)> = Vec::new();
        let mut i: usize = 0;
        while i < self.columns.len()
            invariant
                i <= self.columns@.len(),
                result@.len() == i,
                forall|j: int|
                    0 <= j < i ==> (#[trigger] result@[j]).0@ == self.columns@[j].name@
                        && result@[j].1 == j,
            decreases self.columns@.len() - i,
        {
            result.push((self.columns[i].name.clone(), i));
            i += 1;
        }
        assert(columns_of(result@) =~= positions_of_columns(self.column_names()));
        result
    }
}

/// The least number of values that a row must have for all `positions` to be
/// in it, where all are below `limit`.
fn required_len(positions: &Vec<usize>, Ghost(limit): Ghost<nat>) -> (len: usize)
    requires
        limit <= usize::MAX,
        forall|i: int| 0 <= i < positions@.len() ==> (#[trigger] positions@[i]) < limit,
    ensures
        len == row_len_for(positions@),
{
    let mut len: usize = 0;
    let mut i: usize = 0;
    assert(positions@.take(0) =~= Seq::<usize>::empty());
    while i < positions.len()
        invariant
            i <= positions@.len(),
            len == row_len_for(positions@.take(i as int)),
            len <= limit <= usize::MAX,
            forall|i: int| 0 <= i < positions@.len() ==> (#[trigger] positions@[i]) < limit,
        decreases positions@.len() - i,
    {
        proof {
            assert(positions@.take(i + 1).drop_last() == positions@.take(i as int));
            assert(positions@.take(i + 1).last() == positions@[i as int]);
        }
        if positions[i] + 1 > len {
            len = positions[i] + 1;
        }
        i += 1;
    }
    assert(positions@.take(i as int) == positions@);
    len
}

} // verus!
