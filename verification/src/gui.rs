//! The parts of which the interface toolkit is made.

use vstd::prelude::*;

verus! {

/// One part of the toolkit.
#[derive(Copy, Clone, Debug, PartialEq, Eq, Structural, Hash)]
pub enum GuiPlugin {
    Focus,
    Text,
    Button,
    TextBox,
    Toast,
}

/// The toolkit as a whole.
#[derive(Copy, Clone, Debug, PartialEq, Eq, Structural, Hash)]
pub struct GuiPluginGroup;

impl GuiPluginGroup {
    /// The parts of the toolkit, in the order in which they are set up.
    pub open spec fn members() -> Seq<GuiPlugin> {
        seq![
            GuiPlugin::Focus,
            GuiPlugin::Text,
            GuiPlugin::Button,
            GuiPlugin::TextBox,
            GuiPlugin::Toast,
        ]
    }

    /// The parts of the toolkit, in the order in which they are set up.
    pub fn build(self) -> (plugins: Vec<GuiPlugin>)
        ensures
            plugins@ == GuiPluginGroup::members(),
    {
        let mut plugins: Vec<GuiPlugin> = Vec::new();
        plugins.push(GuiPlugin::Focus);
        plugins.push(GuiPlugin::Text);
        plugins.push(GuiPlugin::Button);
        plugins.push(GuiPlugin::TextBox);
        plugins.push(GuiPlugin::Toast);
        assert(plugins@ =~= GuiPluginGroup::members());
        plugins
    }
}

} // verus!
