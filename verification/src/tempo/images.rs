//! Images: how a stored image is shown as a resource.
use vstd::prelude::*;
use crate::documents::{ImageAttributes, ImageRelation, Meta, ResourceType};
use crate::entity::Image;
use crate::jsonapi::{Relationship, Resource};
use crate::text::{copy_opt_string, copy_string, opt_view, to_owned_string};

verus! {

/// An image as a resource of the public API.
pub type ImageResource = Resource<ResourceType, String, ImageAttributes, ImageRelation, Meta>;

/// The image as a resource: its role, media type, description, size in
/// pixels and in bytes, with no relationships.
pub fn entity_to_resource(image: &Image) -> (r: ImageResource)
    ensures
        r.resource_type == ResourceType::Image,
        r.id@ == image.id@,
        r.attributes.role@ == image.role@,
        r.attributes.format@ == image.format.mime_spec(),
        opt_view(r.attributes.description) == opt_view(image.description),
        r.attributes.width == image.width,
        r.attributes.height == image.height,
        r.attributes.size == image.size,
        r.relationships@.len() == 0,
        r.meta is None,
{
    let relationships: Vec<(ImageRelation, Relationship<ResourceType, Meta>)> = Vec::new();
    Resource {
        resource_type: ResourceType::Image,
        id: copy_string(&image.id),
        attributes: ImageAttributes {
            role: copy_string(&image.role),
            format: to_owned_string(image.format.mime_type()),
            description: copy_opt_string(&image.description),
            width: image.width,
            height: image.height,
            size: image.size,
        },
        relationships,
        meta: None,
    }
}

} // verus!
