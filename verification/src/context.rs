//! The render context's state stack: nested save/restore scopes over the
//! current affine transform, and one begin/finish cycle per frame.

use piet::kurbo::{Affine, Rect};
use piet::{Color, ImageFormat};
use vstd::prelude::*;

verus! {

#[verifier::external_type_specification]
#[verifier::external_body]
pub struct ExAffine(Affine);

#[verifier::external_type_specification]
#[verifier::external_body]
pub struct ExRect(Rect);

#[verifier::external_type_specification]
#[verifier::external_body]
pub struct ExColor(Color);

#[verifier::external_type_specification]
#[verifier::external_body]
pub struct ExImageFormat(ImageFormat);

/// The six coefficients of a transform, as kurbo's `Affine::as_coeffs` hands
/// them out, each as the bit pattern of its IEEE 754 double.
pub uninterp spec fn coefficient_bits(t: Affine) -> Seq<u64>;

/// The transform `delta * current`, as kurbo multiplies two transforms.
pub uninterp spec fn affine_product(delta: Affine, current: Affine) -> Affine;

/// The bit pattern of the double `1.0`.
pub const ONE_BITS: u64 = 0x3FF0_0000_0000_0000;

/// The coefficients of the identity transform: `1, 0, 0, 1, 0, 0`.
pub open spec fn identity_bits() -> Seq<u64> {
    seq![ONE_BITS, 0u64, 0u64, ONE_BITS, 0u64, 0u64]
}

/// Whether `t` is the identity transform.
pub open spec fn is_identity(t: Affine) -> bool {
    coefficient_bits(t) == identity_bits()
}

/// kurbo's constant `Affine::IDENTITY`, which is `Affine::scale(1.0)`: the
/// coefficients `[1.0, 0.0, 0.0, 1.0, 0.0, 0.0]`. Not proved: that the
/// constant holds these coefficients.
#[verifier::external_body]
fn identity_transform() -> (t: Affine)
    ensures
        coefficient_bits(t) == identity_bits(),
{
    Affine::IDENTITY
}

/// kurbo's `Mul` for two `Affine` values, called as `delta * current`. Not
/// proved: that the product depends on the two factors alone, which is what
/// naming it `affine_product` claims.
#[verifier::external_body]
fn compose(delta: Affine, current: Affine) -> (t: Affine)
    ensures
        t == affine_product(delta, current),
{
    delta * current
}

/// Why an operation on the state stack was refused.
#[derive(Clone, Copy, Debug, PartialEq, Eq, Structural)]
pub enum ContextError {
    /// A `restore` without a matching `save`, or a `finish` with a `save`
    /// still open.
    StackUnbalanced,
}

/// An image that the context made.
#[derive(Clone, Copy, Debug)]
pub struct WgpuImage;

/// What a shape is painted with.
#[derive(Clone, Copy)]
pub enum Brush {
    /// One color all over.
    Solid(Color),
}

/// One entry of the state stack.
#[derive(Clone, Copy)]
pub struct CtxState {
    /// The transform in force while this entry is on top.
    pub transform: Affine,
}

/// The stack after a `save`: the top entry is duplicated.
pub open spec fn saved(stack: Seq<Affine>) -> Seq<Affine>
    recommends
        stack.len() > 0,
{
    stack.push(stack.last())
}

/// The stack after a `restore`: the top entry is gone, unless it is the only
/// one, which stays.
pub open spec fn restored(stack: Seq<Affine>) -> Seq<Affine> {
    if stack.len() <= 1 {
        stack
    } else {
        stack.drop_last()
    }
}

/// The stack after `transform(delta)`: the top entry becomes
/// `delta * top`, the entries below are untouched.
pub open spec fn transformed(stack: Seq<Affine>, delta: Affine) -> Seq<Affine>
    recommends
        stack.len() > 0,
{
    stack.update(stack.len() - 1, affine_product(delta, stack.last()))
}

/// The drawing context of one frame. It is open while its stack holds at
/// least one entry, and closed once `finish` has taken the last one.
pub struct WgpuRenderContext {
    ctx_stack: Vec<CtxState>,
}

impl WgpuRenderContext {
    /// The transforms on the stack, the frame's initial state first.
    pub closed spec fn view(&self) -> Seq<Affine> {
        self.ctx_stack@.map_values(|s: CtxState| s.transform)
    }

    /// A frame is in progress.
    pub open spec fn is_open(&self) -> bool {
        self@.len() >= 1
    }

    /// The frame was finished and no other has begun.
    pub open spec fn is_closed(&self) -> bool {
        self@.len() == 0
    }

    /// A context with a frame begun: one entry, the identity transform.
    pub fn new() -> (ctx: Self)
        ensures
            ctx@.len() == 1,
            is_identity(ctx@[0]),
    {
        let mut ctx_stack: Vec<CtxState> = Vec::new();
        ctx_stack.push(CtxState { transform: identity_transform() });
        let ctx = WgpuRenderContext { ctx_stack };
        assert(ctx@.len() == 1);
        ctx
    }

    /// Begins a fresh frame, whatever the stack held: afterwards it holds one
    /// entry, the identity transform.
    pub fn begin(&mut self)
        ensures
            final(self)@.len() == 1,
            is_identity(final(self)@[0]),
    {
        let mut ctx_stack: Vec<CtxState> = Vec::new();
        ctx_stack.push(CtxState { transform: identity_transform() });
        self.ctx_stack = ctx_stack;
    }

    /// The number of entries on the stack.
    pub fn depth(&self) -> (n: usize)
        ensures
            n == self@.len(),
    {
        self.ctx_stack.len()
    }

    /// The transform of the top entry.
    pub fn current_transform(&self) -> (t: Affine)
        requires
            self.is_open(),
        ensures
            t == self@.last(),
    {
        let n: usize = self.ctx_stack.len();
        self.ctx_stack[n - 1].transform
    }

    /// Pushes a copy of the top entry. Returns the depth before the push,
    /// which is the depth that the matching `restore` comes back to.
    pub fn save(&mut self) -> (marker: usize)
        requires
            old(self).is_open(),
        ensures
            final(self)@ == saved(old(self)@),
            marker == old(self)@.len(),
    {
        let marker: usize = self.ctx_stack.len();
        let top = self.ctx_stack[marker - 1];
        self.ctx_stack.push(top);
        assert(self@ =~= saved(old(self)@));
        marker
    }

    /// Pops the top entry, but never the frame's initial state: with one
    /// entry or none the stack is left as it is and the call fails.
    pub fn restore(&mut self) -> (r: Result<(), ContextError>)
        ensures
            final(self)@ == restored(old(self)@),
            r is Ok <==> old(self)@.len() > 1,
            r is Err ==> r == Err::<(), ContextError>(ContextError::StackUnbalanced),
    {
        if self.ctx_stack.len() <= 1 {
            return Err(ContextError::StackUnbalanced);
        }
        self.ctx_stack.pop();
        assert(self@ =~= restored(old(self)@));
        Ok(())
    }

    /// Ends the frame: with exactly one entry left it takes that entry and
    /// closes the context; otherwise the stack is left as it is and the call
    /// fails.
    pub fn finish(&mut self) -> (r: Result<(), ContextError>)
        ensures
            r is Ok <==> old(self)@.len() == 1,
            r is Ok ==> final(self).is_closed(),
            r is Err ==> final(self)@ == old(self)@ && r == Err::<(), ContextError>(
                ContextError::StackUnbalanced,
            ),
    {
        if self.ctx_stack.len() != 1 {
            return Err(ContextError::StackUnbalanced);
        }
        self.ctx_stack.pop();
        Ok(())
    }

    /// Composes `delta` onto the top entry from the left: the new transform
    /// is `delta * current`.
    pub fn transform(&mut self, delta: Affine)
        requires
            old(self).is_open(),
        ensures
            final(self)@ == transformed(old(self)@, delta),
    {
        let n: usize = self.ctx_stack.len();
        let current = self.ctx_stack[n - 1].transform;
        let next = CtxState { transform: compose(delta, current) };
        self.ctx_stack.set(n - 1, next);
        assert(self@ =~= transformed(old(self)@, delta));
    }

    /// Whether an earlier call has failed: none is remembered.
    pub fn status(&mut self) -> (r: Result<(), ContextError>)
        ensures
            r is Ok,
            *final(self) == *old(self),
    {
        Ok(())
    }

    /// The brush that paints `color` all over.
    pub fn solid_brush(&mut self, color: Color) -> (brush: Brush)
        ensures
            brush == Brush::Solid(color),
            *final(self) == *old(self),
    {
        Brush::Solid(color)
    }

    /// An image of what was drawn inside `src_rect`.
    pub fn capture_image_area(&mut self, src_rect: Rect) -> (r: Result<WgpuImage, ContextError>)
        ensures
            r is Ok,
            *final(self) == *old(self),
    {
        Ok(WgpuImage)
    }

    /// An image from the pixels in `buf`, `height` rows of `width` pixels,
    /// each row `stride` bytes after the one before.
    pub fn make_image_with_stride(
        &mut self,
        width: usize,
        height: usize,
        stride: usize,
        buf: &[u8],
        format: ImageFormat,
    ) -> (r: Result<WgpuImage, ContextError>)
        ensures
            r is Ok,
            *final(self) == *old(self),
    {
        Ok(WgpuImage)
    }

    /// Unwinds to a depth that an earlier `save` returned, whatever was
    /// saved since and not restored: a scope that is left early gives its
    /// marker back here and leaves the stack as it found it. A marker of
    /// zero, or one above the present depth, is refused and the stack is
    /// left as it is.
    pub fn restore_to(&mut self, marker: usize) -> (r: Result<(), ContextError>)
        ensures
            r is Ok <==> 1 <= marker <= old(self)@.len(),
            r is Ok ==> final(self)@ == old(self)@.take(marker as int),
            r is Err ==> final(self)@ == old(self)@ && r == Err::<(), ContextError>(
                ContextError::StackUnbalanced,
            ),
    {
        if marker == 0 || marker > self.ctx_stack.len() {
            return Err(ContextError::StackUnbalanced);
        }
        while self.ctx_stack.len() > marker
            invariant
                1 <= marker <= self@.len() <= old(self)@.len(),
                self@ == old(self)@.take(self@.len() as int),
            decreases self@.len(),
        {
            let ghost before = self@;
            self.ctx_stack.pop();
            assert(self@ =~= before.drop_last());
            assert(self@ =~= old(self)@.take(self@.len() as int));
        }
        Ok(())
    }
}

/// One step that a caller takes on an open context.
pub enum StackOp {
    /// A call of `save`.
    Save,
    /// A call of `restore`.
    Restore,
    /// A call of `transform` with this delta.
    Transform(Affine),
}

/// The stack after one step.
pub open spec fn apply(stack: Seq<Affine>, op: StackOp) -> Seq<Affine> {
    match op {
        StackOp::Save => saved(stack),
        StackOp::Restore => restored(stack),
        StackOp::Transform(delta) => transformed(stack, delta),
    }
}

/// The stack after a run of steps, taken in order.
pub open spec fn apply_all(stack: Seq<Affine>, ops: Seq<StackOp>) -> Seq<Affine>
    decreases ops.len(),
{
    if ops.len() == 0 {
        stack
    } else {
        apply(apply_all(stack, ops.drop_last()), ops.last())
    }
}

/// Saves minus restores over a run of steps.
pub open spec fn balance(ops: Seq<StackOp>) -> int
    decreases ops.len(),
{
    if ops.len() == 0 {
        0
    } else {
        balance(ops.drop_last()) + match ops.last() {
            StackOp::Save => 1int,
            StackOp::Restore => -1int,
            StackOp::Transform(_) => 0int,
        }
    }
}

/// No `restore` in the run comes before its `save`.
pub open spec fn never_below_start(ops: Seq<StackOp>) -> bool {
    forall|k: int| 0 <= k <= ops.len() ==> balance(#[trigger] ops.take(k)) >= 0
}

/// The run's saves and restores pair up: none restores more than was saved,
/// and at the end nothing is left saved.
pub open spec fn properly_nested(ops: Seq<StackOp>) -> bool {
    never_below_start(ops) && balance(ops) == 0
}

/// A run in which no `restore` comes before its `save` moves the depth by
/// its balance.
pub proof fn lemma_depth_follows_balance(stack: Seq<Affine>, ops: Seq<StackOp>)
    requires
        stack.len() >= 1,
        never_below_start(ops),
    ensures
        apply_all(stack, ops).len() == stack.len() + balance(ops),
    decreases ops.len(),
{
    if ops.len() > 0 {
        let front = ops.drop_last();
        assert forall|k: int| 0 <= k <= front.len() implies balance(#[trigger] front.take(k))
            >= 0 by {
            assert(front.take(k) =~= ops.take(k));
        }
        lemma_depth_follows_balance(stack, front);
        assert(ops.take(front.len() as int) =~= front);
        assert(ops.take(ops.len() as int) =~= ops);
        assert(balance(front) >= 0);
        assert(balance(ops) >= 0);
    }
}

/// In a run in which no `restore` comes before its `save`, every `restore`
/// finds at least two entries, which is when it succeeds.
pub proof fn lemma_restores_succeed(stack: Seq<Affine>, ops: Seq<StackOp>, k: int)
    requires
        stack.len() >= 1,
        never_below_start(ops),
        0 <= k < ops.len(),
        ops[k] is Restore,
    ensures
        apply_all(stack, ops.take(k)).len() >= 2,
{
    let before = ops.take(k);
    let with = ops.take(k + 1);
    assert forall|j: int| 0 <= j <= before.len() implies balance(#[trigger] before.take(j))
        >= 0 by {
        assert(before.take(j) =~= ops.take(j));
    }
    lemma_depth_follows_balance(stack, before);
    assert(with.drop_last() =~= before);
    assert(with.last() == ops[k]);
    assert(balance(with) == balance(before) - 1);
    assert(balance(with) >= 0);
}

/// After any properly nested run of `save`, `restore` and `transform` on a
/// freshly begun context, exactly one entry is left, which is when `finish`
/// succeeds; and every `restore` of the run has succeeded.
pub proof fn law_nested_run_finishes(stack: Seq<Affine>, ops: Seq<StackOp>)
    requires
        stack.len() == 1,
        properly_nested(ops),
    ensures
        apply_all(stack, ops).len() == 1,
        forall|k: int|
            0 <= k < ops.len() && ops[k] is Restore ==> (#[trigger] apply_all(
                stack,
                ops.take(k),
            )).len() >= 2,
{
    lemma_depth_follows_balance(stack, ops);
    assert forall|k: int| 0 <= k < ops.len() && ops[k] is Restore implies (#[trigger] apply_all(
        stack,
        ops.take(k),
    )).len() >= 2 by {
        lemma_restores_succeed(stack, ops, k);
    }
}

/// A `restore` at depth one changes nothing, however often it is tried.
pub proof fn law_restore_at_bottom(stack: Seq<Affine>)
    requires
        stack.len() == 1,
    ensures
        restored(stack) == stack,
        restored(restored(stack)) == stack,
{
}

/// Two transforms compose from the left: after `transform(a)` and then
/// `transform(b)` the current transform is `b * (a * before)`, and nothing
/// below the top entry has moved.
pub proof fn law_transform_order(stack: Seq<Affine>, a: Affine, b: Affine)
    requires
        stack.len() >= 1,
    ensures
        transformed(transformed(stack, a), b).last() == affine_product(
            b,
            affine_product(a, stack.last()),
        ),
        transformed(transformed(stack, a), b).drop_last() == stack.drop_last(),
{
    assert(transformed(transformed(stack, a), b).drop_last() =~= stack.drop_last());
}

/// `save`, then `transform`, then `restore` gives back the stack as it was
/// before the `save`, the current transform included.
pub proof fn law_save_transform_restore(stack: Seq<Affine>, a: Affine)
    requires
        stack.len() >= 1,
    ensures
        restored(transformed(saved(stack), a)) == stack,
{
    assert(restored(transformed(saved(stack), a)) =~= stack);
}

} // verus!
