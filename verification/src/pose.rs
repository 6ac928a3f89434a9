//! Poses: where a body is and how it is turned.
use vstd::prelude::*;
use crate::scalar::{Additive, Scalar};
use crate::vector::{lerp, lerp_spec, ExactVectorSpace, VectorSpace};

verus! {

/// A rotation of the vectors of `V`.
pub trait Rotation<V: VectorSpace>: Copy + Sized {
    /// The rotation that turns nothing.
    spec fn one_spec() -> Self;

    /// The rotation that undoes this one.
    spec fn invert_spec(self) -> Self;

    /// The vector turned by the rotation.
    spec fn rotate_spec(self, v: V) -> V;

    /// The rotation that turns by `rhs` first and by `self` after.
    spec fn compose_spec(self, rhs: Self) -> Self;

    /// The rotation a fraction `amount` of the way from `self` to `other`.
    spec fn interpolate_spec(self, other: Self, amount: V::Scalar) -> Self;

    /// The rotation that turns a viewer to look in `direction`, with `up`
    /// above.
    spec fn look_at_spec(direction: V, up: V) -> Self;

    fn one() -> (r: Self)
        ensures
            r == Self::one_spec(),
    ;

    fn invert(self) -> (r: Self)
        ensures
            r == self.invert_spec(),
    ;

    fn rotate_vector(self, v: V) -> (r: V)
        ensures
            r == self.rotate_spec(v),
    ;

    fn compose(self, rhs: Self) -> (r: Self)
        ensures
            r == self.compose_spec(rhs),
    ;

    fn interpolate(self, other: Self, amount: V::Scalar) -> (r: Self)
        ensures
            r == self.interpolate_spec(other, amount),
    ;

    fn look_at(direction: V, up: V) -> (r: Self)
        ensures
            r == Self::look_at_spec(direction, up),
    ;
}

/// The laws of a rotation that is computed exactly.
pub trait ExactRotation<V: ExactVectorSpace>: Rotation<V> {
    proof fn law_compose_invert(r: Self)
        ensures
            r.compose_spec(r.invert_spec()) == Self::one_spec(),
    ;

    proof fn law_rotate_invert(r: Self, v: V)
        ensures
            r.rotate_spec(r.invert_spec().rotate_spec(v)) == v,
    ;

    proof fn law_rotate_negated(r: Self, v: V)
        ensures
            r.rotate_spec(v.negated_spec()) == r.rotate_spec(v).negated_spec(),
    ;

    proof fn law_interpolate_ends(from: Self, to: Self)
        ensures
            from.interpolate_spec(to, V::Scalar::zero_spec()) == from,
            from.interpolate_spec(to, V::Scalar::one_spec()) == to,
    ;
}

/// A rigid transform of the points of `V`.
pub trait Transform<V: VectorSpace>: Sized {
    /// The transform that moves nothing.
    spec fn one_spec() -> Self;

    /// The transform of a viewer at `eye` who looks at `center`, with `up`
    /// above.
    spec fn look_at_spec(eye: V, center: V, up: V) -> Self;

    spec fn transform_vector_spec(&self, v: V) -> V;

    spec fn transform_point_spec(&self, point: V) -> V;

    /// The transform that applies `other` first and `self` after.
    spec fn concat_spec(&self, other: &Self) -> Self;

    /// The transform that undoes this one, where there is one.
    spec fn inverse_transform_spec(&self) -> Option<Self>;

    spec fn inverse_transform_vector_spec(&self, v: V) -> Option<V>;

    fn one() -> (r: Self)
        ensures
            r == Self::one_spec(),
    ;

    fn look_at(eye: V, center: V, up: V) -> (r: Self)
        ensures
            r == Self::look_at_spec(eye, center, up),
    ;

    fn transform_vector(&self, v: V) -> (r: V)
        ensures
            r == self.transform_vector_spec(v),
    ;

    fn transform_point(&self, point: V) -> (r: V)
        ensures
            r == self.transform_point_spec(point),
    ;

    fn concat(&self, other: &Self) -> (r: Self)
        ensures
            r == self.concat_spec(other),
    ;

    fn inverse_transform(&self) -> (r: Option<Self>)
        ensures
            r == self.inverse_transform_spec(),
    ;

    fn inverse_transform_vector(&self, v: V) -> (r: Option<V>)
        ensures
            r == self.inverse_transform_vector_spec(v),
    ;
}

/// A transform that can be interpolated with another, in position and in
/// rotation.
pub trait Interpolate<S: Scalar>: Sized {
    /// The transform a fraction `amount` of the way from `self` to `other`.
    spec fn interpolate_spec(&self, other: &Self, amount: S) -> Self;

    fn interpolate(&self, other: &Self, amount: S) -> (r: Self)
        ensures
            r == self.interpolate_spec(other, amount),
    ;
}

/// A transform whose position can be interpolated with that of another.
pub trait TranslationInterpolate<S: Scalar>: Sized {
    /// The transform whose position lies a fraction `amount` of the way
    /// from that of `self` to that of `other`.
    spec fn translation_interpolate_spec(&self, other: &Self, amount: S) -> Self;

    fn translation_interpolate(&self, other: &Self, amount: S) -> (r: Self)
        ensures
            r == self.translation_interpolate_spec(other, amount),
    ;
}

/// A value computed for the next frame, held apart from the current one
/// until the frame is committed.
#[derive(Clone, Copy, Debug, PartialEq)]
pub struct NextFrame<T> {
    pub value: T,
}

/// The pose of a body: a position, a rotation, the inverse of the rotation,
/// and a flag that tells whether the pose was set since it was last cleared.
#[derive(Debug, PartialEq)]
pub struct BodyPose<V: VectorSpace, R: Rotation<V>> {
    dirty: bool,
    position: V,
    rotation: R,
    inverse_rotation: R,
}

impl<V: VectorSpace, R: Rotation<V>> BodyPose<V, R> {
    pub closed spec fn position_spec(&self) -> V {
        self.position
    }

    pub closed spec fn rotation_spec(&self) -> R {
        self.rotation
    }

    pub closed spec fn inverse_rotation_spec(&self) -> R {
        self.inverse_rotation
    }

    /// Whether position or rotation was set since the flag was last cleared.
    pub closed spec fn is_dirty(&self) -> bool {
        self.dirty
    }

    /// The pose at `position` turned by `rotation`, marked as set.
    pub closed spec fn new_spec(position: V, rotation: R) -> Self {
        BodyPose { dirty: true, position, rotation, inverse_rotation: rotation.invert_spec() }
    }

    /// A pose is made of its position, its rotation and its flag.
    pub proof fn lemma_new_spec(position: V, rotation: R)
        ensures
            Self::new_spec(position, rotation).position_spec() == position,
            Self::new_spec(position, rotation).rotation_spec() == rotation,
            Self::new_spec(position, rotation).inverse_rotation_spec() == rotation.invert_spec(),
            Self::new_spec(position, rotation).is_dirty(),
    {
    }

    /// The inverse rotation that a pose holds is the inverse of its rotation.
    #[verifier::type_invariant]
    pub closed spec fn consistent(&self) -> bool {
        self.inverse_rotation == self.rotation.invert_spec()
    }

    /// A pose that is marked as set is the pose made of its own position
    /// and rotation.
    pub proof fn lemma_new_of_own_parts(pose: Self)
        requires
            pose.consistent(),
            pose.is_dirty(),
        ensures
            Self::new_spec(pose.position_spec(), pose.rotation_spec()) == pose,
    {
    }

    pub fn new(position: V, rotation: R) -> (r: Self)
        ensures
            r == Self::new_spec(position, rotation),
    {
        BodyPose { dirty: true, position, inverse_rotation: rotation.invert(), rotation }
    }

    /// Sets the rotation, and with it the inverse rotation and the flag.
    pub fn set_rotation(&mut self, rotation: R)
        ensures
            final(self).rotation_spec() == rotation,
            final(self).inverse_rotation_spec() == rotation.invert_spec(),
            final(self).position_spec() == old(self).position_spec(),
            final(self).is_dirty(),
    {
        *self = BodyPose {
            dirty: true,
            position: self.position,
            rotation,
            inverse_rotation: rotation.invert(),
        };
    }

    /// Sets the position, and with it the flag.
    pub fn set_position(&mut self, position: V)
        ensures
            final(self).position_spec() == position,
            final(self).rotation_spec() == old(self).rotation_spec(),
            final(self).inverse_rotation_spec() == old(self).inverse_rotation_spec(),
            final(self).is_dirty(),
    {
        proof {
            use_type_invariant(&*self);
        }
        *self = BodyPose {
            dirty: true,
            position,
            rotation: self.rotation,
            inverse_rotation: self.inverse_rotation,
        };
    }

    pub fn position(&self) -> (r: &V)
        ensures
            *r == self.position_spec(),
    {
        &self.position
    }

    pub fn rotation(&self) -> (r: &R)
        ensures
            *r == self.rotation_spec(),
    {
        &self.rotation
    }

    /// The inverse of the rotation.
    pub fn inverse_rotation(&self) -> (r: &R)
        ensures
            *r == self.inverse_rotation_spec(),
            *r == self.rotation_spec().invert_spec(),
    {
        proof {
            use_type_invariant(self);
        }
        &self.inverse_rotation
    }

    pub fn dirty(&self) -> (r: bool)
        ensures
            r == self.is_dirty(),
    {
        self.dirty
    }

    /// Clears the flag.
    pub fn clear(&mut self)
        ensures
            !final(self).is_dirty(),
            final(self).position_spec() == old(self).position_spec(),
            final(self).rotation_spec() == old(self).rotation_spec(),
            final(self).inverse_rotation_spec() == old(self).inverse_rotation_spec(),
    {
        proof {
            use_type_invariant(&*self);
        }
        *self = BodyPose {
            dirty: false,
            position: self.position,
            rotation: self.rotation,
            inverse_rotation: self.inverse_rotation,
        };
    }
}

impl<V: VectorSpace, R: Rotation<V>> TranslationInterpolate<V::Scalar> for BodyPose<V, R> {
    /// The pose whose position lies a fraction `amount` of the way from this
    /// position to that of `other`, with the rotation of `other`.
    open spec fn translation_interpolate_spec(&self, other: &Self, amount: V::Scalar) -> Self {
        Self::new_spec(
            lerp_spec(self.position_spec(), other.position_spec(), amount),
            other.rotation_spec(),
        )
    }

    fn translation_interpolate(&self, other: &Self, amount: V::Scalar) -> (r: Self) {
        BodyPose::new(lerp(self.position, other.position, amount), other.rotation)
    }
}

impl<V: VectorSpace, R: Rotation<V>> Interpolate<V::Scalar> for BodyPose<V, R> {
    /// The pose a fraction `amount` of the way from this pose to `other`,
    /// in position and in rotation.
    open spec fn interpolate_spec(&self, other: &Self, amount: V::Scalar) -> Self {
        Self::new_spec(
            lerp_spec(self.position_spec(), other.position_spec(), amount),
            self.rotation_spec().interpolate_spec(other.rotation_spec(), amount),
        )
    }

    fn interpolate(&self, other: &Self, amount: V::Scalar) -> (r: Self) {
        BodyPose::new(
            lerp(self.position, other.position, amount),
            self.rotation.interpolate(other.rotation, amount),
        )
    }
}

impl<V: VectorSpace, R: Rotation<V>> Clone for BodyPose<V, R> {
    fn clone(&self) -> (r: Self)
        ensures
            r == *self,
    {
        proof {
            use_type_invariant(self);
        }
        BodyPose {
            dirty: self.dirty,
            position: self.position,
            rotation: self.rotation,
            inverse_rotation: self.inverse_rotation,
        }
    }
}

impl<V: VectorSpace, R: Rotation<V>> Copy for BodyPose<V, R> {

}

impl<V: VectorSpace, R: Rotation<V>> Transform<V> for BodyPose<V, R> {
    open spec fn one_spec() -> Self {
        Self::new_spec(V::zero_spec(), R::one_spec())
    }

    /// The rotation looks from `eye` to `center`; the position is where
    /// that rotation takes the way from `eye` to the origin.
    open spec fn look_at_spec(eye: V, center: V, up: V) -> Self {
        let rotation = R::look_at_spec(center.minus_spec(eye), up);
        Self::new_spec(rotation.rotate_spec(V::zero_spec().minus_spec(eye)), rotation)
    }

    open spec fn transform_vector_spec(&self, v: V) -> V {
        self.rotation_spec().rotate_spec(v)
    }

    open spec fn transform_point_spec(&self, point: V) -> V {
        self.rotation_spec().rotate_spec(point).plus_spec(self.position_spec())
    }

    open spec fn concat_spec(&self, other: &Self) -> Self {
        Self::new_spec(
            self.position_spec().plus_spec(
                self.rotation_spec().rotate_spec(other.position_spec()),
            ),
            self.rotation_spec().compose_spec(other.rotation_spec()),
        )
    }

    open spec fn inverse_transform_spec(&self) -> Option<Self> {
        Some(
            Self::new_spec(
                self.inverse_rotation_spec().rotate_spec(self.position_spec()).negated_spec(),
                self.inverse_rotation_spec(),
            ),
        )
    }

    open spec fn inverse_transform_vector_spec(&self, v: V) -> Option<V> {
        Some(self.inverse_rotation_spec().rotate_spec(v))
    }

    fn one() -> (r: Self) {
        Self::new(V::zero(), R::one())
    }

    fn look_at(eye: V, center: V, up: V) -> (r: Self) {
        let rotation = R::look_at(center.minus(eye), up);
        Self::new(rotation.rotate_vector(V::zero().minus(eye)), rotation)
    }

    fn transform_vector(&self, v: V) -> (r: V) {
        self.rotation.rotate_vector(v)
    }

    fn transform_point(&self, point: V) -> (r: V) {
        self.rotation.rotate_vector(point).plus(self.position)
    }

    fn concat(&self, other: &Self) -> (r: Self) {
        Self::new(
            self.position.plus(self.rotation.rotate_vector(other.position)),
            self.rotation.compose(other.rotation),
        )
    }

    fn inverse_transform(&self) -> (r: Option<Self>) {
        Some(
            Self::new(
                self.inverse_rotation.rotate_vector(self.position).negated(),
                self.inverse_rotation,
            ),
        )
    }

    fn inverse_transform_vector(&self, v: V) -> (r: Option<V>) {
        Some(self.inverse_rotation.rotate_vector(v))
    }
}

/// A pose followed by its inverse is the pose that moves nothing.
pub proof fn lemma_pose_round_trip<V: ExactVectorSpace, R: ExactRotation<V>>(pose: BodyPose<V, R>)
    requires
        pose.consistent(),
    ensures
        pose.inverse_transform_spec() is Some,
        pose.concat_spec(&pose.inverse_transform_spec().unwrap()) == BodyPose::<V, R>::one_spec(),
{
    let p = pose.position_spec();
    let r = pose.rotation_spec();
    let inverse = pose.inverse_transform_spec().unwrap();
    BodyPose::<V, R>::lemma_new_spec(r.invert_spec().rotate_spec(p).negated_spec(), r.invert_spec());
    R::law_rotate_negated(r, r.invert_spec().rotate_spec(p));
    R::law_rotate_invert(r, p);
    V::law_plus_negated(p);
    R::law_compose_invert(r);
}

/// Interpolation by zero gives the position and rotation of the first pose.
pub proof fn lemma_interpolate_start<V: ExactVectorSpace, R: ExactRotation<V>>(
    from: BodyPose<V, R>,
    to: BodyPose<V, R>,
)
    ensures
        from.interpolate_spec(&to, V::Scalar::zero_spec()) == BodyPose::<V, R>::new_spec(
            from.position_spec(),
            from.rotation_spec(),
        ),
        from.consistent() && from.is_dirty() ==> from.interpolate_spec(
            &to,
            V::Scalar::zero_spec(),
        ) == from,
{
    V::law_scaled_zero(to.position_spec().minus_spec(from.position_spec()));
    V::law_plus_zero(from.position_spec());
    R::law_interpolate_ends(from.rotation_spec(), to.rotation_spec());
}

/// Interpolation by one gives the position and rotation of the second pose.
pub proof fn lemma_interpolate_end<V: ExactVectorSpace, R: ExactRotation<V>>(
    from: BodyPose<V, R>,
    to: BodyPose<V, R>,
)
    ensures
        from.interpolate_spec(&to, V::Scalar::one_spec()) == BodyPose::<V, R>::new_spec(
            to.position_spec(),
            to.rotation_spec(),
        ),
        to.consistent() && to.is_dirty() ==> from.interpolate_spec(&to, V::Scalar::one_spec())
            == to,
{
    V::law_scaled_one(to.position_spec().minus_spec(from.position_spec()));
    V::law_plus_minus(from.position_spec(), to.position_spec());
    R::law_interpolate_ends(from.rotation_spec(), to.rotation_spec());
}

} // verus!
