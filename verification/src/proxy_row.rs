//! A row of the proxy list: which properties of its proxy it shows in which
//! of its widgets, and the radio group of its check button.
use vstd::prelude::*;

verus! {

/// A property of a listed proxy.
#[derive(PartialEq, Eq, Structural, Clone, Copy, Debug)]
pub enum ProxyProperty {
    /// Whether the proxy is in use (`"enabled"`).
    Enabled,
    /// The proxy's kind (`"type"`).
    Type,
    /// The proxy's server (`"server"`).
    Server,
}

/// A widget of a proxy row, with the property of it that shows a value.
#[derive(PartialEq, Eq, Structural, Clone, Copy, Debug)]
pub enum RowWidget {
    /// The check button, through its `"active"` property.
    CheckButton,
    /// The label with the proxy's kind, through its `"label"` property.
    TypeLabel,
    /// The label with the proxy's server, through its `"label"` property.
    ServerLabel,
}

/// A binding from a property of the proxy to a widget of the row. Every
/// binding of a row takes the source's value at once when it is made;
/// a bidirectional one also writes changes of the widget back.
#[derive(PartialEq, Eq, Structural, Clone, Copy, Debug)]
pub struct PropertyBinding {
    pub source: ProxyProperty,
    pub target: RowWidget,
    pub bidirectional: bool,
}

/// The bindings that binding a row to a proxy makes, in order: the
/// check button follows and sets whether the proxy is enabled, the two
/// labels show its kind and its server.
pub open spec fn row_bindings() -> Seq<PropertyBinding> {
    seq![
        PropertyBinding { source: ProxyProperty::Enabled, target: RowWidget::CheckButton, bidirectional: true },
        PropertyBinding { source: ProxyProperty::Type, target: RowWidget::TypeLabel, bidirectional: false },
        PropertyBinding { source: ProxyProperty::Server, target: RowWidget::ServerLabel, bidirectional: false },
    ]
}

/// The state of a row: the bindings that it holds and the row whose check
/// button its own check button is grouped with, if any.
pub struct ProxyRow {
    bindings: Vec<PropertyBinding>,
    group: Option<usize>,
}

/// The view of a row.
pub struct ProxyRowView {
    pub bindings: Seq<PropertyBinding>,
    pub group: Option<usize>,
}

impl View for ProxyRow {
    type V = ProxyRowView;

    closed spec fn view(&self) -> ProxyRowView {
        ProxyRowView { bindings: self.bindings@, group: self.group }
    }
}

impl ProxyRow {
    /// A row with no binding and an ungrouped check button.
    pub fn new() -> (r: Self)
        ensures
            r@.bindings.len() == 0,
            r@.group is None,
    {
        ProxyRow { bindings: Vec::new(), group: None }
    }

    /// Puts the row's check button into the group of the check button of
    /// the row `button`, or takes it out of any group (`None`).
    pub fn check_button_set_group(&mut self, button: Option<usize>)
        ensures
            final(self)@.group == button,
            final(self)@.bindings == old(self)@.bindings,
    {
        self.group = button;
    }

    /// The row whose check button this row's check button is grouped with.
    pub fn check_button_group(&self) -> (r: Option<usize>)
        ensures
            r == self@.group,
    {
        self.group
    }

    /// The bindings that the row holds, in the order they were made.
    pub fn bindings(&self) -> (r: &Vec<PropertyBinding>)
        ensures
            r@ == self@.bindings,
    {
        &self.bindings
    }

    /// Binds the row to its proxy: adds the bindings of `row_bindings`
    /// after those the row already holds.
    pub fn bind(&mut self)
        ensures
            final(self)@.bindings == old(self)@.bindings + row_bindings(),
            final(self)@.group == old(self)@.group,
    {
        self.bindings.push(
            PropertyBinding {
                source: ProxyProperty::Enabled,
                target: RowWidget::CheckButton,
                bidirectional: true,
            },
        );
        self.bindings.push(
            PropertyBinding {
                source: ProxyProperty::Type,
                target: RowWidget::TypeLabel,
                bidirectional: false,
            },
        );
        self.bindings.push(
            PropertyBinding {
                source: ProxyProperty::Server,
                target: RowWidget::ServerLabel,
                bidirectional: false,
            },
        );
        assert(self.bindings@ =~= old(self).bindings@ + row_bindings());
    }

    /// Unbinds the row: hands back every binding it held, in order, for
    /// each to be undone, and keeps none.
    pub fn unbind(&mut self) -> (r: Vec<PropertyBinding>)
        ensures
            r@ == old(self)@.bindings,
            final(self)@.bindings.len() == 0,
            final(self)@.group == old(self)@.group,
    {
        let mut drained = Vec::new();
        std::mem::swap(&mut drained, &mut self.bindings);
        drained
    }
}

impl Default for ProxyRow {
    fn default() -> (r: Self)
        ensures
            r@.bindings.len() == 0,
            r@.group is None,
    {
        ProxyRow::new()
    }
}

/// Binding a fresh row and unbinding it again hands back exactly the three
/// bindings of a row and leaves the row with none.
pub proof fn lemma_bind_then_unbind(fresh: ProxyRowView, bound: ProxyRowView, drained: Seq<PropertyBinding>, after: ProxyRowView)
    requires
        fresh.bindings.len() == 0,
        bound.bindings == fresh.bindings + row_bindings(),
        drained == bound.bindings,
        after.bindings.len() == 0,
    ensures
        drained == row_bindings(),
        drained.len() == 3,
        after.bindings.len() == 0,
{
    assert(fresh.bindings + row_bindings() =~= row_bindings());
}

} // verus!
