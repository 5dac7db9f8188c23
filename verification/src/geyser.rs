//! What the skin service of the bedrock bridge answers.

use vstd::prelude::*;
use crate::request::RenderRequestEntryModel;

verus! {

/// The answer to a skin lookup.
#[derive(Debug)]
pub struct GeyserSkinResponse {
    pub is_steve: bool,
    pub texture_id: String,
}

impl GeyserSkinResponse {
    /// The model that the answer names: the wide one where it says so,
    /// else the slim one.
    pub open spec fn model(&self) -> RenderRequestEntryModel {
        if self.is_steve {
            RenderRequestEntryModel::Steve
        } else {
            RenderRequestEntryModel::Alex
        }
    }

    /// The texture and the model that the answer names.
    pub fn into_texture_and_model(self) -> (named: (String, RenderRequestEntryModel))
        ensures
            named.0 == self.texture_id,
            named.1 == self.model(),
    {
        let model = if self.is_steve {
            RenderRequestEntryModel::Steve
        } else {
            RenderRequestEntryModel::Alex
        };
        (self.texture_id, model)
    }
}

} // verus!
