use platformer::constants::{COLLIDER, CONTACT_DAMAGE, ENTITY, RATCHET, SHOOTABLE, WATER};
use platformer::map::{tile_mask, Layer, MapError, TileMap, TilePlacement};
use platformer::xml_items::{XmlAttribute, XmlItem};

const LEVEL: &str = r#"<?xml version="1.0" encoding="UTF-8"?>
<map version="1.4" orientation="orthogonal" width="3" height="2" tilewidth="16" tileheight="16">
 <tileset firstgid="1" source="level_1.tsx"/>
 <layer id="1" name="Background" width="3" height="2">
  <data encoding="csv">
1,2,3,
4,5,6
</data>
 </layer>
 <layer id="2" name="Level" width="3" height="2">
  <data encoding="csv">
0,2147483650,0,
0,0,7
</data>
 </layer>
</map>
"#;

fn load(text: &str) -> Result<TileMap, MapError> {
    TileMap::new_tmx(text.as_bytes())
}

#[test]
fn loads_a_tmx_map() {
    let map = load(LEVEL).unwrap();
    assert_eq!(map.width, 3);
    assert_eq!(map.height, 2);
    assert_eq!(map.tile_width(), 16);
    assert_eq!(map.tile_height(), 16);
    assert_eq!(map.tileset_first_gid(), 1);
    assert_eq!(map.tileset_source, "level_1.tsx");
    assert_eq!(map.bounds(), ((0, 0), (3, 2)));
    assert_eq!(map.layers.len(), 2);
    assert_eq!(map.layers[0].id, 1);
    assert_eq!(map.layers[0].name, "Background");
    assert_eq!(map.layers[0].tile_data, vec![1, 2, 3, 4, 5, 6]);
    assert_eq!(map.layers[1].tile_data, vec![0, 2147483650, 0, 0, 0, 7]);
}

#[test]
fn layer_named_finds_the_first_match() {
    let map = load(LEVEL).unwrap();
    assert_eq!(map.layer_named("Level").unwrap().id, 2);
    assert_eq!(map.layer_named("Background").unwrap().id, 1);
    assert!(map.layer_named("Entities").is_none());
}

#[test]
fn tile_placements_decode_flags_and_skip_empty_cells() {
    let map = load(LEVEL).unwrap();
    let level = map.layer_named("Level").unwrap();
    let placements = map.tile_placements(level, 10);
    assert_eq!(
        placements,
        vec![
            TilePlacement { x: 1, y: 2, tile_index: 1, flipped_horizontally: true, flipped_vertically: false, flipped_diagonally: false },
            TilePlacement { x: 2, y: 1, tile_index: 6, flipped_horizontally: false, flipped_vertically: false, flipped_diagonally: false },
        ]
    );
    // tiles past the end of the tileset place nothing
    assert_eq!(map.tile_placements(level, 5).len(), 1);
    let background = map.layer_named("Background").unwrap();
    assert_eq!(map.tile_placements(background, 6).len(), 6);
    assert!(map.tile_placements(background, 6).iter().all(|p| p.tile_index < 6));
}

fn doc(body: &str) -> String {
    format!(r#"<map width="1" height="1" tilewidth="8" tileheight="8"><tileset firstgid="1" source="t.tsx"/>{}</map>"#, body)
}

#[test]
fn reports_each_load_error() {
    let layer = |attrs: &str, data: &str| format!(r#"<layer {}><data encoding="csv">{}</data></layer>"#, attrs, data);
    assert!(load(&doc(&layer(r#"id="1" width="1" height="1""#, "5"))).is_ok());
    assert_eq!(load(&doc(&layer(r#"width="1" height="1""#, "5"))).err(), Some(MapError::LayerMissingId));
    assert_eq!(load(&doc(&layer(r#"id="-1" width="1" height="1""#, "5"))).err(), Some(MapError::LayerMissingId));
    assert_eq!(load(&doc(&layer(r#"id="1" height="1""#, "5"))).err(), Some(MapError::LayerMissingWidth));
    assert_eq!(load(&doc(&layer(r#"id="1" width="1""#, "5"))).err(), Some(MapError::LayerMissingHeight));
    assert_eq!(load(&doc(&layer(r#"id="x" width="1" height="1""#, "5"))).err(), Some(MapError::BadLayerAttribute));
    assert_eq!(load(&doc(&layer(r#"id="1" width="1" height="1""#, "5,a"))).err(), Some(MapError::BadTileIndex));
    assert_eq!(
        load(&doc(&layer(r#"id="1" width="2" height="1""#, "5"))).err(),
        Some(MapError::LayerSizeMismatch { expected: 2, found: 1 })
    );
    assert_eq!(
        load(&doc(r#"<layer id="1" width="1" height="1"><data encoding="base64">AAAA</data></layer>"#)).err(),
        Some(MapError::UnsupportedDataEncoding)
    );
    assert_eq!(load(&doc(r#"<data encoding="csv">1</data>"#)).err(), Some(MapError::DataOutsideLayer));
    assert_eq!(load(&doc(r#"<group></group>"#)).err(), None);
    assert_eq!(
        load(r#"<map width="w" height="1" tilewidth="8" tileheight="8"/>"#).err(),
        Some(MapError::BadMapAttribute)
    );
    assert_eq!(
        load(r#"<map width="1" height="1" tilewidth="8" tileheight="8"><tileset firstgid="one"/></map>"#).err(),
        Some(MapError::BadTilesetFirstGid)
    );
}

#[test]
fn reports_missing_map_parts_in_order() {
    assert_eq!(load(r#"<map width="1" height="1" tilewidth="8" tileheight="8"/>"#).err(), Some(MapError::MissingTileset));
    assert_eq!(
        load(r#"<map width="1" height="1" tilewidth="8" tileheight="8"><tileset source="t.tsx"/></map>"#).err(),
        Some(MapError::MissingFirstGid)
    );
    assert_eq!(
        load(r#"<map height="1" tilewidth="8" tileheight="8"><tileset source="t.tsx" firstgid="1"/></map>"#).err(),
        Some(MapError::MissingWidth)
    );
    assert_eq!(
        load(r#"<map width="1" tilewidth="8" tileheight="8"><tileset source="t.tsx" firstgid="1"/></map>"#).err(),
        Some(MapError::MissingHeight)
    );
    assert_eq!(
        load(r#"<map width="1" height="1" tileheight="8"><tileset source="t.tsx" firstgid="1"/></map>"#).err(),
        Some(MapError::MissingTileWidth)
    );
    assert_eq!(
        load(r#"<map width="1" height="1" tilewidth="8"><tileset source="t.tsx" firstgid="1"/></map>"#).err(),
        Some(MapError::MissingTileHeight)
    );
}

#[test]
fn from_xml_items_reads_events() {
    let attr = |n: &str, v: &str| XmlAttribute { name: n.to_string(), value: v.to_string() };
    let items = vec![
        XmlItem::StartElement {
            name: "map".to_string(),
            attributes: vec![attr("width", "2"), attr("height", "1"), attr("tilewidth", "4"), attr("tileheight", "4")],
        },
        XmlItem::StartElement { name: "tileset".to_string(), attributes: vec![attr("firstgid", "3"), attr("source", "x.tsx")] },
        XmlItem::StartElement {
            name: "layer".to_string(),
            attributes: vec![attr("id", "9"), attr("width", "2"), attr("height", "1"), attr("name", "L")],
        },
        XmlItem::StartElement { name: "data".to_string(), attributes: vec![attr("encoding", "csv")] },
        XmlItem::Characters { text: "3,".to_string() },
        XmlItem::Other,
        XmlItem::Characters { text: "4".to_string() },
        XmlItem::EndElement { name: "data".to_string() },
        XmlItem::EndElement { name: "layer".to_string() },
        XmlItem::EndElement { name: "map".to_string() },
    ];
    let map = TileMap::from_xml_items(&items).unwrap();
    assert_eq!(map.tileset_first_gid(), 3);
    assert_eq!(map.layers.len(), 1);
    assert_eq!(map.layers[0].tile_data, vec![3, 4]);
    let closing = vec![XmlItem::EndElement { name: "layer".to_string() }];
    assert_eq!(TileMap::from_xml_items(&closing).err(), Some(MapError::UnmatchedLayerEnd));
}

#[test]
fn default_layer_is_empty() {
    let l = Layer::default();
    assert_eq!(l.id, -1);
    assert_eq!(l.name, "");
    assert_eq!((l.width, l.height), (0, 0));
    assert!(l.tile_data.is_empty());
}

#[test]
fn tile_mask_sets_one_bit_per_property() {
    assert_eq!(tile_mask(false, false, false, false, false, false), 0);
    assert_eq!(tile_mask(true, false, false, false, false, false), COLLIDER);
    assert_eq!(tile_mask(true, true, true, true, true, true), COLLIDER | WATER | RATCHET | ENTITY | CONTACT_DAMAGE | SHOOTABLE);
    assert_eq!(tile_mask(false, true, false, false, true, false), WATER | CONTACT_DAMAGE);
    assert_eq!(COLLIDER, 1 << 31);
    assert_eq!(SHOOTABLE, 1 << 26);
}
