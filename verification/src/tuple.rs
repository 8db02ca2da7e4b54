//! The shapes of the tuples of two to fifteen elements.
use vstd::prelude::*;
use crate::model::ShapeModel;
use crate::registry::TUPLE;
use crate::shape::{shapes_model, Shape};
use crate::TypeHash;

verus! {

impl<T1: TypeHash, T2: TypeHash> TypeHash for (T1, T2) {
    open spec fn model() -> ShapeModel {
        ShapeModel::container(TUPLE@, seq![T1::model(), T2::model()])
    }

    fn shape() -> Shape {
        let elems = vec![T1::shape(), T2::shape()];
        assert(shapes_model(elems@) =~= Self::model()->args);
        Shape::container(TUPLE, elems)
    }
}

impl<T1: TypeHash, T2: TypeHash, T3: TypeHash> TypeHash for (T1, T2, T3) {
    open spec fn model() -> ShapeModel {
        ShapeModel::container(TUPLE@, seq![T1::model(), T2::model(), T3::model()])
    }

    fn shape() -> Shape {
        let elems = vec![T1::shape(), T2::shape(), T3::shape()];
        assert(shapes_model(elems@) =~= Self::model()->args);
        Shape::container(TUPLE, elems)
    }
}

impl<T1: TypeHash, T2: TypeHash, T3: TypeHash, T4: TypeHash> TypeHash for (T1, T2, T3, T4) {
    open spec fn model() -> ShapeModel {
        ShapeModel::container(TUPLE@, seq![T1::model(), T2::model(), T3::model(), T4::model()])
    }

    fn shape() -> Shape {
        let elems = vec![T1::shape(), T2::shape(), T3::shape(), T4::shape()];
        assert(shapes_model(elems@) =~= Self::model()->args);
        Shape::container(TUPLE, elems)
    }
}

impl<
    T1: TypeHash,
    T2: TypeHash,
    T3: TypeHash,
    T4: TypeHash,
    T5: TypeHash,
> TypeHash for (T1, T2, T3, T4, T5) {
    open spec fn model() -> ShapeModel {
        ShapeModel::container(
            TUPLE@,
            seq![T1::model(), T2::model(), T3::model(), T4::model(), T5::model()],
        )
    }

    fn shape() -> Shape {
        let elems = vec![T1::shape(), T2::shape(), T3::shape(), T4::shape(), T5::shape()];
        assert(shapes_model(elems@) =~= Self::model()->args);
        Shape::container(TUPLE, elems)
    }
}

impl<
    T1: TypeHash,
    T2: TypeHash,
    T3: TypeHash,
    T4: TypeHash,
    T5: TypeHash,
    T6: TypeHash,
> TypeHash for (T1, T2, T3, T4, T5, T6) {
    open spec fn model() -> ShapeModel {
        ShapeModel::container(
            TUPLE@,
            seq![T1::model(), T2::model(), T3::model(), T4::model(), T5::model(), T6::model()],
        )
    }

    fn shape() -> Shape {
        let elems = vec![
            T1::shape(),
            T2::shape(),
            T3::shape(),
            T4::shape(),
            T5::shape(),
            T6::shape(),
        ];
        assert(shapes_model(elems@) =~= Self::model()->args);
        Shape::container(TUPLE, elems)
    }
}

impl<
    T1: TypeHash,
    T2: TypeHash,
    T3: TypeHash,
    T4: TypeHash,
    T5: TypeHash,
    T6: TypeHash,
    T7: TypeHash,
> TypeHash for (T1, T2, T3, T4, T5, T6, T7) {
    open spec fn model() -> ShapeModel {
        ShapeModel::container(
            TUPLE@,
            seq![
                T1::model(),
                T2::model(),
                T3::model(),
                T4::model(),
                T5::model(),
                T6::model(),
                T7::model(),
            ],
        )
    }

    fn shape() -> Shape {
        let elems = vec![
            T1::shape(),
            T2::shape(),
            T3::shape(),
            T4::shape(),
            T5::shape(),
            T6::shape(),
            T7::shape(),
        ];
        assert(shapes_model(elems@) =~= Self::model()->args);
        Shape::container(TUPLE, elems)
    }
}

impl<
    T1: TypeHash,
    T2: TypeHash,
    T3: TypeHash,
    T4: TypeHash,
    T5: TypeHash,
    T6: TypeHash,
    T7: TypeHash,
    T8: TypeHash,
> TypeHash for (T1, T2, T3, T4, T5, T6, T7, T8) {
    open spec fn model() -> ShapeModel {
        ShapeModel::container(
            TUPLE@,
            seq![
                T1::model(),
                T2::model(),
                T3::model(),
                T4::model(),
                T5::model(),
                T6::model(),
                T7::model(),
                T8::model(),
            ],
        )
    }

    fn shape() -> Shape {
        let elems = vec![
            T1::shape(),
            T2::shape(),
            T3::shape(),
            T4::shape(),
            T5::shape(),
            T6::shape(),
            T7::shape(),
            T8::shape(),
        ];
        assert(shapes_model(elems@) =~= Self::model()->args);
        Shape::container(TUPLE, elems)
    }
}

impl<
    T1: TypeHash,
    T2: TypeHash,
    T3: TypeHash,
    T4: TypeHash,
    T5: TypeHash,
    T6: TypeHash,
    T7: TypeHash,
    T8: TypeHash,
    T9: TypeHash,
> TypeHash for (T1, T2, T3, T4, T5, T6, T7, T8, T9) {
    open spec fn model() -> ShapeModel {
        ShapeModel::container(
            TUPLE@,
            seq![
                T1::model(),
                T2::model(),
                T3::model(),
                T4::model(),
                T5::model(),
                T6::model(),
                T7::model(),
                T8::model(),
                T9::model(),
            ],
        )
    }

    fn shape() -> Shape {
        let elems = vec![
            T1::shape(),
            T2::shape(),
            T3::shape(),
            T4::shape(),
            T5::shape(),
            T6::shape(),
            T7::shape(),
            T8::shape(),
            T9::shape(),
        ];
        assert(shapes_model(elems@) =~= Self::model()->args);
        Shape::container(TUPLE, elems)
    }
}

impl<
    T1: TypeHash,
    T2: TypeHash,
    T3: TypeHash,
    T4: TypeHash,
    T5: TypeHash,
    T6: TypeHash,
    T7: TypeHash,
    T8: TypeHash,
    T9: TypeHash,
    T10: TypeHash,
> TypeHash for (T1, T2, T3, T4, T5, T6, T7, T8, T9, T10) {
    open spec fn model() -> ShapeModel {
        ShapeModel::container(
            TUPLE@,
            seq![
                T1::model(),
                T2::model(),
                T3::model(),
                T4::model(),
                T5::model(),
                T6::model(),
                T7::model(),
                T8::model(),
                T9::model(),
                T10::model(),
            ],
        )
    }

    fn shape() -> Shape {
        let elems = vec![
            T1::shape(),
            T2::shape(),
            T3::shape(),
            T4::shape(),
            T5::shape(),
            T6::shape(),
            T7::shape(),
            T8::shape(),
            T9::shape(),
            T10::shape(),
        ];
        assert(shapes_model(elems@) =~= Self::model()->args);
        Shape::container(TUPLE, elems)
    }
}

impl<
    T1: TypeHash,
    T2: TypeHash,
    T3: TypeHash,
    T4: TypeHash,
    T5: TypeHash,
    T6: TypeHash,
    T7: TypeHash,
    T8: TypeHash,
    T9: TypeHash,
    T10: TypeHash,
    T11: TypeHash,
> TypeHash for (T1, T2, T3, T4, T5, T6, T7, T8, T9, T10, T11) {
    open spec fn model() -> ShapeModel {
        ShapeModel::container(
            TUPLE@,
            seq![
                T1::model(),
                T2::model(),
                T3::model(),
                T4::model(),
                T5::model(),
                T6::model(),
                T7::model(),
                T8::model(),
                T9::model(),
                T10::model(),
                T11::model(),
            ],
        )
    }

    fn shape() -> Shape {
        let elems = vec![
            T1::shape(),
            T2::shape(),
            T3::shape(),
            T4::shape(),
            T5::shape(),
            T6::shape(),
            T7::shape(),
            T8::shape(),
            T9::shape(),
            T10::shape(),
            T11::shape(),
        ];
        assert(shapes_model(elems@) =~= Self::model()->args);
        Shape::container(TUPLE, elems)
    }
}

impl<
    T1: TypeHash,
    T2: TypeHash,
    T3: TypeHash,
    T4: TypeHash,
    T5: TypeHash,
    T6: TypeHash,
    T7: TypeHash,
    T8: TypeHash,
    T9: TypeHash,
    T10: TypeHash,
    T11: TypeHash,
    T12: TypeHash,
> TypeHash for (T1, T2, T3, T4, T5, T6, T7, T8, T9, T10, T11, T12) {
    open spec fn model() -> ShapeModel {
        ShapeModel::container(
            TUPLE@,
            seq![
                T1::model(),
                T2::model(),
                T3::model(),
                T4::model(),
                T5::model(),
                T6::model(),
                T7::model(),
                T8::model(),
                T9::model(),
                T10::model(),
                T11::model(),
                T12::model(),
            ],
        )
    }

    fn shape() -> Shape {
        let elems = vec![
            T1::shape(),
            T2::shape(),
            T3::shape(),
            T4::shape(),
            T5::shape(),
            T6::shape(),
            T7::shape(),
            T8::shape(),
            T9::shape(),
            T10::shape(),
            T11::shape(),
            T12::shape(),
        ];
        assert(shapes_model(elems@) =~= Self::model()->args);
        Shape::container(TUPLE, elems)
    }
}

impl<
    T1: TypeHash,
    T2: TypeHash,
    T3: TypeHash,
    T4: TypeHash,
    T5: TypeHash,
    T6: TypeHash,
    T7: TypeHash,
    T8: TypeHash,
    T9: TypeHash,
    T10: TypeHash,
    T11: TypeHash,
    T12: TypeHash,
    T13: TypeHash,
> TypeHash for (T1, T2, T3, T4, T5, T6, T7, T8, T9, T10, T11, T12, T13) {
    open spec fn model() -> ShapeModel {
        ShapeModel::container(
            TUPLE@,
            seq![
                T1::model(),
                T2::model(),
                T3::model(),
                T4::model(),
                T5::model(),
                T6::model(),
                T7::model(),
                T8::model(),
                T9::model(),
                T10::model(),
                T11::model(),
                T12::model(),
                T13::model(),
            ],
        )
    }

    fn shape() -> Shape {
        let elems = vec![
            T1::shape(),
            T2::shape(),
            T3::shape(),
            T4::shape(),
            T5::shape(),
            T6::shape(),
            T7::shape(),
            T8::shape(),
            T9::shape(),
            T10::shape(),
            T11::shape(),
            T12::shape(),
            T13::shape(),
        ];
        assert(shapes_model(elems@) =~= Self::model()->args);
        Shape::container(TUPLE, elems)
    }
}

impl<
    T1: TypeHash,
    T2: TypeHash,
    T3: TypeHash,
    T4: TypeHash,
    T5: TypeHash,
    T6: TypeHash,
    T7: TypeHash,
    T8: TypeHash,
    T9: TypeHash,
    T10: TypeHash,
    T11: TypeHash,
    T12: TypeHash,
    T13: TypeHash,
    T14: TypeHash,
> TypeHash for (T1, T2, T3, T4, T5, T6, T7, T8, T9, T10, T11, T12, T13, T14) {
    open spec fn model() -> ShapeModel {
        ShapeModel::container(
            TUPLE@,
            seq![
                T1::model(),
                T2::model(),
                T3::model(),
                T4::model(),
                T5::model(),
                T6::model(),
                T7::model(),
                T8::model(),
                T9::model(),
                T10::model(),
                T11::model(),
                T12::model(),
                T13::model(),
                T14::model(),
            ],
        )
    }

    fn shape() -> Shape {
        let elems = vec![
            T1::shape(),
            T2::shape(),
            T3::shape(),
            T4::shape(),
            T5::shape(),
            T6::shape(),
            T7::shape(),
            T8::shape(),
            T9::shape(),
            T10::shape(),
            T11::shape(),
            T12::shape(),
            T13::shape(),
            T14::shape(),
        ];
        assert(shapes_model(elems@) =~= Self::model()->args);
        Shape::container(TUPLE, elems)
    }
}

impl<
    T1: TypeHash,
    T2: TypeHash,
    T3: TypeHash,
    T4: TypeHash,
    T5: TypeHash,
    T6: TypeHash,
    T7: TypeHash,
    T8: TypeHash,
    T9: TypeHash,
    T10: TypeHash,
    T11: TypeHash,
    T12: TypeHash,
    T13: TypeHash,
    T14: TypeHash,
    T15: TypeHash,
> TypeHash for (T1, T2, T3, T4, T5, T6, T7, T8, T9, T10, T11, T12, T13, T14, T15) {
    open spec fn model() -> ShapeModel {
        ShapeModel::container(
            TUPLE@,
            seq![
                T1::model(),
                T2::model(),
                T3::model(),
                T4::model(),
                T5::model(),
                T6::model(),
                T7::model(),
                T8::model(),
                T9::model(),
                T10::model(),
                T11::model(),
                T12::model(),
                T13::model(),
                T14::model(),
                T15::model(),
            ],
        )
    }

    fn shape() -> Shape {
        let elems = vec![
            T1::shape(),
            T2::shape(),
            T3::shape(),
            T4::shape(),
            T5::shape(),
            T6::shape(),
            T7::shape(),
            T8::shape(),
            T9::shape(),
            T10::shape(),
            T11::shape(),
            T12::shape(),
            T13::shape(),
            T14::shape(),
            T15::shape(),
        ];
        assert(shapes_model(elems@) =~= Self::model()->args);
        Shape::container(TUPLE, elems)
    }
}

} // verus!
