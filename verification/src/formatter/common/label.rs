//! Deriving display labels for groups.

use vstd::prelude::*;

verus! {

/// Marker: derive a group's label from its key.
#[derive(Debug, Default, Clone, Copy, Hash, PartialEq, Eq)]
pub struct FromGroupKey;

/// Marker: derive a group's label from its context.
#[derive(Debug, Default, Clone, Copy, Hash, PartialEq, Eq)]
pub struct FromGroupCtx;

/// A displayable label for a test group; `M` says where it comes from.
#[derive(Debug, Default, Hash, PartialEq, Eq)]
pub struct GroupLabel<M> {
    marker: std::marker::PhantomData<M>,
    /// The computed label.
    pub label: String,
}

impl<M> Clone for GroupLabel<M> {
    fn clone(&self) -> (r: Self)
        ensures
            r.label_text() == self.label_text(),
    {
        GroupLabel { marker: std::marker::PhantomData, label: self.label.clone() }
    }
}

/// Computes the label of a group from its key and context.
pub trait GroupLabeler<GroupKey, GroupCtx> {
    /// Whether `label` is the label of the group with this key and context.
    spec fn labels(key: &GroupKey, ctx: Option<&GroupCtx>, label: String) -> bool;

    /// The label of the group with this key and context.
    fn label_of(key: &GroupKey, ctx: Option<&GroupCtx>) -> (r: String)
        ensures
            Self::labels(key, ctx, r),
    ;
}

impl<M> GroupLabel<M> {
    /// The label's text.
    pub closed spec fn label_text(&self) -> String {
        self.label
    }

    /// A label with the given text.
    pub fn new(label: String) -> (r: Self)
        ensures
            r.label_text() == label,
    {
        GroupLabel { marker: std::marker::PhantomData, label }
    }
}

impl<GroupKey: std::fmt::Display, GroupCtx> GroupLabeler<GroupKey, GroupCtx> for GroupLabel<FromGroupKey> {
    /// The label is the key as `Display` renders it (`to_string`).
    open spec fn labels(key: &GroupKey, ctx: Option<&GroupCtx>, label: String) -> bool {
        vstd::string::to_string_from_display_ensures::<GroupKey>(key, label)
    }

    /// The key as `Display` renders it.
    fn label_of(key: &GroupKey, ctx: Option<&GroupCtx>) -> String {
        key.to_string()
    }
}

impl<GroupKey, GroupCtx: std::fmt::Display> GroupLabeler<GroupKey, GroupCtx> for GroupLabel<FromGroupCtx> {
    /// The label is the context as `Display` renders it (`to_string`), or empty without a
    /// context.
    open spec fn labels(key: &GroupKey, ctx: Option<&GroupCtx>, label: String) -> bool {
        match ctx {
            Some(c) => vstd::string::to_string_from_display_ensures::<GroupCtx>(c, label),
            None => label@.len() == 0,
        }
    }

    /// The context as `Display` renders it, or empty without a context.
    fn label_of(key: &GroupKey, ctx: Option<&GroupCtx>) -> String {
        match ctx {
            Some(c) => c.to_string(),
            None => String::new(),
        }
    }
}

} // verus!
