use vstd::prelude::*;

use crate::{Error, Result};

verus! {

/// The product of `dimensions` taken from the first axis to the last.
pub open spec fn product(dimensions: Seq<usize>) -> int
    decreases dimensions.len(),
{
    if dimensions.len() == 0 {
        1
    } else {
        product(dimensions.drop_last()) * dimensions.last()
    }
}

/// Whether every dimension fits in the native `i32` index type.
pub open spec fn fits_native(dimensions: Seq<usize>) -> bool {
    forall|axis: int| 0 <= axis < dimensions.len() ==> #[trigger] dimensions[axis] <= i32::MAX
}

/// A validated list of array dimensions.
#[derive(Debug, PartialEq, Eq, Hash)]
pub struct Shape(Vec<usize>);

impl Clone for Shape {
    /// Copies the dimensions into a new shape.
    fn clone(&self) -> (copy: Self)
        ensures
            copy@ == self@,
    {
        proof {
            use_type_invariant(self);
        }
        Shape(self.0.clone())
    }
}

impl View for Shape {
    type V = Seq<usize>;

    closed spec fn view(&self) -> Seq<usize> {
        self.0@
    }
}

proof fn lemma_product_nonnegative(dimensions: Seq<usize>)
    ensures
        product(dimensions) >= 0,
    decreases dimensions.len(),
{
    if dimensions.len() > 0 {
        lemma_product_nonnegative(dimensions.drop_last());
        vstd::arithmetic::mul::lemma_mul_nonnegative(
            product(dimensions.drop_last()),
            dimensions.last() as int,
        );
    }
}

proof fn lemma_product_zero(dimensions: Seq<usize>, axis: int)
    requires
        0 <= axis < dimensions.len(),
        dimensions[axis] == 0,
    ensures
        product(dimensions) == 0,
    decreases dimensions.len(),
{
    let before = product(dimensions.drop_last());
    if axis < dimensions.len() - 1 {
        lemma_product_zero(dimensions.drop_last(), axis);
        assert(before * (dimensions.last() as int) == 0) by (nonlinear_arith)
            requires
                before == 0,
        ;
    } else {
        assert(before * (dimensions.last() as int) == 0) by (nonlinear_arith)
            requires
                dimensions.last() == 0,
        ;
    }
}

proof fn lemma_prefix_product(dimensions: Seq<usize>, count: int)
    requires
        0 <= count <= dimensions.len(),
        forall|axis: int| 0 <= axis < dimensions.len() ==> #[trigger] dimensions[axis] >= 1,
    ensures
        product(dimensions.take(count)) <= product(dimensions),
    decreases dimensions.len() - count,
{
    if count == dimensions.len() {
        assert(dimensions.take(count) =~= dimensions);
    } else {
        lemma_prefix_product(dimensions, count + 1);
        assert(dimensions.take(count + 1).drop_last() =~= dimensions.take(count));
        let before = product(dimensions.take(count));
        let factor = dimensions[count] as int;
        lemma_product_nonnegative(dimensions.take(count));
        assert(before * factor >= before) by (nonlinear_arith)
            requires
                before >= 0,
                factor >= 1,
        ;
    }
}

/// Computes the product of `dimensions`, or `None` when it exceeds `usize`.
///
/// A zero dimension makes the product zero whatever the other dimensions
/// are; otherwise every running product is at most the full product.
fn checked_product(dimensions: &Vec<usize>) -> (result: Option<usize>)
    ensures
        match result {
            Some(total) => total == product(dimensions@),
            None => product(dimensions@) > usize::MAX,
        },
{
    let mut axis: usize = 0;
    while axis < dimensions.len()
        invariant
            axis <= dimensions@.len(),
            forall|k: int| 0 <= k < axis ==> #[trigger] dimensions@[k] >= 1,
        decreases dimensions@.len() - axis,
    {
        if dimensions[axis] == 0 {
            proof {
                lemma_product_zero(dimensions@, axis as int);
            }
            return Some(0);
        }
        axis = axis + 1;
    }
    let mut total: usize = 1;
    let mut index: usize = 0;
    proof {
        assert(dimensions@.take(0) =~= Seq::<usize>::empty());
    }
    while index < dimensions.len()
        invariant
            index <= dimensions@.len(),
            forall|k: int| 0 <= k < dimensions@.len() ==> #[trigger] dimensions@[k] >= 1,
            total == product(dimensions@.take(index as int)),
        decreases dimensions@.len() - index,
    {
        let ghost next = dimensions@.take(index + 1);
        proof {
            assert(next.drop_last() =~= dimensions@.take(index as int));
        }
        match total.checked_mul(dimensions[index]) {
            Some(value) => {
                total = value;
                index = index + 1;
            },
            None => {
                proof {
                    lemma_prefix_product(dimensions@, index + 1);
                }
                return None;
            },
        }
    }
    proof {
        assert(dimensions@.take(dimensions@.len() as int) =~= dimensions@);
    }
    Some(total)
}

impl Shape {
    /// A shape's element count fits in `usize`.
    #[verifier::type_invariant]
    spec fn well_formed(self) -> bool {
        product(self.0@) <= usize::MAX
    }

    /// Creates a shape and rejects an overflowing element count.
    pub fn new(dimensions: Vec<usize>) -> (result: Result<Shape>)
        ensures
            product(dimensions@) <= usize::MAX ==> (result matches Ok(shape) && shape@ == dimensions@),
            product(dimensions@) > usize::MAX ==> result matches Err(Error::ShapeOverflow),
    {
        match checked_product(&dimensions) {
            Some(_) => Ok(Shape(dimensions)),
            None => Err(Error::ShapeOverflow),
        }
    }

    /// Returns the total number of elements described by this shape.
    pub fn elements(&self) -> (result: Result<usize>)
        ensures
            result matches Ok(total) && total == product(self@),
    {
        proof {
            use_type_invariant(self);
        }
        match checked_product(&self.0) {
            Some(total) => Ok(total),
            None => Err(Error::ShapeOverflow),
        }
    }

    /// Checks that host data of `data` elements fills this shape exactly and
    /// returns the element count.
    pub fn check_data(&self, data: usize) -> (result: Result<usize>)
        ensures
            data == product(self@) ==> (result matches Ok(total) && total == data),
            data != product(self@) ==> (result matches Err(Error::Shape { shape, elements, data: found })
                && shape@ == self@ && elements == product(self@) && found == data),
    {
        let elements = match self.elements() {
            Ok(total) => total,
            Err(error) => {
                return Err(error);
            },
        };
        if elements != data {
            let shape = self.0.clone();
            proof {
                assert(shape@ =~= self@);
            }
            return Err(Error::Shape { shape, elements, data });
        }
        Ok(elements)
    }

    /// Returns the dimensions in axis order.
    pub fn dimensions(&self) -> (dimensions: &[usize])
        ensures
            dimensions@ == self@,
    {
        self.0.as_slice()
    }

    /// Converts every dimension to the native `i32` index type.
    pub fn native(&self) -> (result: Result<Vec<i32>>)
        ensures
            fits_native(self@) ==> (result matches Ok(native) && native@.len() == self@.len()
                && forall|axis: int| 0 <= axis < self@.len() ==> #[trigger] native@[axis] == self@[axis]),
            !fits_native(self@) ==> result matches Err(Error::Integer(_)),
    {
        native_indices(self.0.as_slice())
    }
}

/// Converts every value to the native `i32` index type, failing on the first
/// value that does not fit.
pub fn native_indices(values: &[usize]) -> (result: Result<Vec<i32>>)
    ensures
        fits_native(values@) ==> (result matches Ok(native) && native@.len() == values@.len()
            && forall|axis: int| 0 <= axis < values@.len() ==> #[trigger] native@[axis] == values@[axis]),
        !fits_native(values@) ==> result matches Err(Error::Integer(_)),
{
    let mut native: Vec<i32> = Vec::new();
    let mut index: usize = 0;
    while index < values.len()
        invariant
            index <= values.len(),
            native@.len() == index,
            forall|axis: int| 0 <= axis < index ==> #[trigger] native@[axis] == values@[axis],
            forall|axis: int| 0 <= axis < index ==> #[trigger] values@[axis] <= i32::MAX,
        decreases values.len() - index,
    {
        match i32::try_from(values[index]) {
            Ok(value) => native.push(value),
            Err(error) => return Err(Error::Integer(error)),
        }
        index = index + 1;
    }
    Ok(native)
}

/// Dimensions that [`Shape::new`] accepts have a non-negative element count
/// that fits in `usize`, so [`Shape::elements`] never overflows on them.
pub proof fn lemma_new_then_elements(dimensions: Seq<usize>)
    requires
        product(dimensions) <= usize::MAX,
    ensures
        0 <= product(dimensions) <= usize::MAX,
{
    lemma_product_nonnegative(dimensions);
}

/// Dimensions convert to native indices exactly when each is at most
/// 2147483647, the largest native `i32`.
pub proof fn lemma_native_dimensions(dimensions: Seq<usize>)
    ensures
        fits_native(dimensions) <==> forall|axis: int| 0 <= axis < dimensions.len() ==> #[trigger] dimensions[axis] <= 2147483647,
{
}

} // verus!
