use vstd::prelude::*;

verus! {

/// A game rule whose kind of value the client does not know: the value is
/// carried as the text that stands for it.
#[derive(Debug, Clone, PartialEq, Eq)]
pub struct UntypedGameRule {
    pub key: String,
    pub value: String,
}

/// The value of an [`UntypedGameRule`].
pub struct UntypedGameRuleView {
    pub key: Seq<char>,
    pub value: Seq<char>,
}

impl View for UntypedGameRule {
    type V = UntypedGameRuleView;

    open spec fn view(&self) -> UntypedGameRuleView {
        UntypedGameRuleView { key: self.key@, value: self.value@ }
    }
}

impl DeepView for UntypedGameRule {
    type V = UntypedGameRuleView;

    open spec fn deep_view(&self) -> UntypedGameRuleView {
        self.view()
    }
}

/// A game rule together with a tag that says of what kind its value is
/// (a boolean, an integer). The value itself is still carried as text.
#[derive(Debug, Clone, PartialEq, Eq)]
pub struct TypedGameRule {
    pub key: String,
    pub value: String,
    pub value_type: String,
}

/// The value of a [`TypedGameRule`].
pub struct TypedGameRuleView {
    pub key: Seq<char>,
    pub value: Seq<char>,
    pub value_type: Seq<char>,
}

impl View for TypedGameRule {
    type V = TypedGameRuleView;

    open spec fn view(&self) -> TypedGameRuleView {
        TypedGameRuleView { key: self.key@, value: self.value@, value_type: self.value_type@ }
    }
}

impl DeepView for TypedGameRule {
    type V = TypedGameRuleView;

    open spec fn deep_view(&self) -> TypedGameRuleView {
        self.view()
    }
}

} // verus!
