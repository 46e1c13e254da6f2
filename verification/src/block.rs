use vstd::prelude::*;

verus! {

/// Every kind of block a world can hold.
#[derive(Clone, Copy, PartialEq, Eq, Hash, Debug, Structural)]
pub enum BlockType {
    GrassBlock,
    SnowyGrassBlock,
    Dirt,
    Podzol,
    Stone,
    Sand,
    OakLog,
    SpruceLog,
    BirchLog,
    JungleLog,
    OakLeaves,
    SpruceLeaves,
    BirchLeaves,
    JungleLeaves,
    OakPlanks,
    Spruceplanks,
    BirchPlanks,
    JunglePlanks,
    AcaciaPlanks,
    DarkOakPlanks,
    MangorvePlanks,
    CherryPlanks,
    BambooPlanks,
    CrimsonPlanks,
    WarpedPlanks,
    PaleOakPlanks,
    Cobblestone,
    MossyCobblestone,
    StoneBricks,
    ChiseledStoneBricks,
    MossyStoneBricks,
    SmoothStone,
    Sandstone,
    ChiseledSandstone,
    CopperBlock,
    DiamondBlock,
    EmeraldBlock,
    GoldBlock,
    IronBlock,
    LapisBlock,
    Terracotta,
    BlackTerracotta,
    BlueTerracotta,
    BrownTerracotta,
    CyanTerracotta,
    GrayTerracotta,
    GreenTerracotta,
    LightBlueTerracotta,
    LightGrayTerracotta,
    LimeTerracotta,
    MagentaTerracotta,
    OrangeTerracotta,
    PinkTerracotta,
    PurpleTerracotta,
    RedTerracotta,
    WhiteTerracotta,
    YellowTerracotta,
    BlackGlazedTerracotta,
    BlueGlazedTerracotta,
    BrownGlazedTerracotta,
    CyanGlazedTerracotta,
    GrayGlazedTerracotta,
    GreenGlazedTerracotta,
    LightBlueGlazedTerracotta,
    LightGrayGlazedTerracotta,
    LimeGlazedTerracotta,
    MagentaGlazedTerracotta,
    OrangeGlazedTerracotta,
    PinkGlazedTerracotta,
    PurpleGlazedTerracotta,
    RedGlazedTerracotta,
    WhiteGlazedTerracotta,
    YellowGlazedTerracotta,
    Water,
    Snow,
    SnowLayer,
    BrownMushroom,
    RedMushroom,
    Poppy,
    PinkTulip,
    TorchFlower,
    ShortGrass,
    TallGrassTop,
    TallGrassBottom,
    TallDryGrass,
    ShortDryGrass,
    DeadBush,
    Fern,
    LargeFernTop,
    LargeFernBottom,
    Cactus,
    CactusFlower,
    SweetBerryBushStage1,
    SweetBerryBushStage2,
    Air,
}

/// The number of block kinds.
pub const BLOCK_TYPE_COUNT: usize = 95;

/// The position of a block kind in declaration order.
pub open spec fn type_index(t: BlockType) -> int {
    match t {
        BlockType::GrassBlock => 0,
        BlockType::SnowyGrassBlock => 1,
        BlockType::Dirt => 2,
        BlockType::Podzol => 3,
        BlockType::Stone => 4,
        BlockType::Sand => 5,
        BlockType::OakLog => 6,
        BlockType::SpruceLog => 7,
        BlockType::BirchLog => 8,
        BlockType::JungleLog => 9,
        BlockType::OakLeaves => 10,
        BlockType::SpruceLeaves => 11,
        BlockType::BirchLeaves => 12,
        BlockType::JungleLeaves => 13,
        BlockType::OakPlanks => 14,
        BlockType::Spruceplanks => 15,
        BlockType::BirchPlanks => 16,
        BlockType::JunglePlanks => 17,
        BlockType::AcaciaPlanks => 18,
        BlockType::DarkOakPlanks => 19,
        BlockType::MangorvePlanks => 20,
        BlockType::CherryPlanks => 21,
        BlockType::BambooPlanks => 22,
        BlockType::CrimsonPlanks => 23,
        BlockType::WarpedPlanks => 24,
        BlockType::PaleOakPlanks => 25,
        BlockType::Cobblestone => 26,
        BlockType::MossyCobblestone => 27,
        BlockType::StoneBricks => 28,
        BlockType::ChiseledStoneBricks => 29,
        BlockType::MossyStoneBricks => 30,
        BlockType::SmoothStone => 31,
        BlockType::Sandstone => 32,
        BlockType::ChiseledSandstone => 33,
        BlockType::CopperBlock => 34,
        BlockType::DiamondBlock => 35,
        BlockType::EmeraldBlock => 36,
        BlockType::GoldBlock => 37,
        BlockType::IronBlock => 38,
        BlockType::LapisBlock => 39,
        BlockType::Terracotta => 40,
        BlockType::BlackTerracotta => 41,
        BlockType::BlueTerracotta => 42,
        BlockType::BrownTerracotta => 43,
        BlockType::CyanTerracotta => 44,
        BlockType::GrayTerracotta => 45,
        BlockType::GreenTerracotta => 46,
        BlockType::LightBlueTerracotta => 47,
        BlockType::LightGrayTerracotta => 48,
        BlockType::LimeTerracotta => 49,
        BlockType::MagentaTerracotta => 50,
        BlockType::OrangeTerracotta => 51,
        BlockType::PinkTerracotta => 52,
        BlockType::PurpleTerracotta => 53,
        BlockType::RedTerracotta => 54,
        BlockType::WhiteTerracotta => 55,
        BlockType::YellowTerracotta => 56,
        BlockType::BlackGlazedTerracotta => 57,
        BlockType::BlueGlazedTerracotta => 58,
        BlockType::BrownGlazedTerracotta => 59,
        BlockType::CyanGlazedTerracotta => 60,
        BlockType::GrayGlazedTerracotta => 61,
        BlockType::GreenGlazedTerracotta => 62,
        BlockType::LightBlueGlazedTerracotta => 63,
        BlockType::LightGrayGlazedTerracotta => 64,
        BlockType::LimeGlazedTerracotta => 65,
        BlockType::MagentaGlazedTerracotta => 66,
        BlockType::OrangeGlazedTerracotta => 67,
        BlockType::PinkGlazedTerracotta => 68,
        BlockType::PurpleGlazedTerracotta => 69,
        BlockType::RedGlazedTerracotta => 70,
        BlockType::WhiteGlazedTerracotta => 71,
        BlockType::YellowGlazedTerracotta => 72,
        BlockType::Water => 73,
        BlockType::Snow => 74,
        BlockType::SnowLayer => 75,
        BlockType::BrownMushroom => 76,
        BlockType::RedMushroom => 77,
        BlockType::Poppy => 78,
        BlockType::PinkTulip => 79,
        BlockType::TorchFlower => 80,
        BlockType::ShortGrass => 81,
        BlockType::TallGrassTop => 82,
        BlockType::TallGrassBottom => 83,
        BlockType::TallDryGrass => 84,
        BlockType::ShortDryGrass => 85,
        BlockType::DeadBush => 86,
        BlockType::Fern => 87,
        BlockType::LargeFernTop => 88,
        BlockType::LargeFernBottom => 89,
        BlockType::Cactus => 90,
        BlockType::CactusFlower => 91,
        BlockType::SweetBerryBushStage1 => 92,
        BlockType::SweetBerryBushStage2 => 93,
        BlockType::Air => 94,
    }
}

/// Every block kind, in declaration order.
pub open spec fn all_block_types() -> Seq<BlockType> {
    seq![
        BlockType::GrassBlock,
        BlockType::SnowyGrassBlock,
        BlockType::Dirt,
        BlockType::Podzol,
        BlockType::Stone,
        BlockType::Sand,
        BlockType::OakLog,
        BlockType::SpruceLog,
        BlockType::BirchLog,
        BlockType::JungleLog,
        BlockType::OakLeaves,
        BlockType::SpruceLeaves,
        BlockType::BirchLeaves,
        BlockType::JungleLeaves,
        BlockType::OakPlanks,
        BlockType::Spruceplanks,
        BlockType::BirchPlanks,
        BlockType::JunglePlanks,
        BlockType::AcaciaPlanks,
        BlockType::DarkOakPlanks,
        BlockType::MangorvePlanks,
        BlockType::CherryPlanks,
        BlockType::BambooPlanks,
        BlockType::CrimsonPlanks,
        BlockType::WarpedPlanks,
        BlockType::PaleOakPlanks,
        BlockType::Cobblestone,
        BlockType::MossyCobblestone,
        BlockType::StoneBricks,
        BlockType::ChiseledStoneBricks,
        BlockType::MossyStoneBricks,
        BlockType::SmoothStone,
        BlockType::Sandstone,
        BlockType::ChiseledSandstone,
        BlockType::CopperBlock,
        BlockType::DiamondBlock,
        BlockType::EmeraldBlock,
        BlockType::GoldBlock,
        BlockType::IronBlock,
        BlockType::LapisBlock,
        BlockType::Terracotta,
        BlockType::BlackTerracotta,
        BlockType::BlueTerracotta,
        BlockType::BrownTerracotta,
        BlockType::CyanTerracotta,
        BlockType::GrayTerracotta,
        BlockType::GreenTerracotta,
        BlockType::LightBlueTerracotta,
        BlockType::LightGrayTerracotta,
        BlockType::LimeTerracotta,
        BlockType::MagentaTerracotta,
        BlockType::OrangeTerracotta,
        BlockType::PinkTerracotta,
        BlockType::PurpleTerracotta,
        BlockType::RedTerracotta,
        BlockType::WhiteTerracotta,
        BlockType::YellowTerracotta,
        BlockType::BlackGlazedTerracotta,
        BlockType::BlueGlazedTerracotta,
        BlockType::BrownGlazedTerracotta,
        BlockType::CyanGlazedTerracotta,
        BlockType::GrayGlazedTerracotta,
        BlockType::GreenGlazedTerracotta,
        BlockType::LightBlueGlazedTerracotta,
        BlockType::LightGrayGlazedTerracotta,
        BlockType::LimeGlazedTerracotta,
        BlockType::MagentaGlazedTerracotta,
        BlockType::OrangeGlazedTerracotta,
        BlockType::PinkGlazedTerracotta,
        BlockType::PurpleGlazedTerracotta,
        BlockType::RedGlazedTerracotta,
        BlockType::WhiteGlazedTerracotta,
        BlockType::YellowGlazedTerracotta,
        BlockType::Water,
        BlockType::Snow,
        BlockType::SnowLayer,
        BlockType::BrownMushroom,
        BlockType::RedMushroom,
        BlockType::Poppy,
        BlockType::PinkTulip,
        BlockType::TorchFlower,
        BlockType::ShortGrass,
        BlockType::TallGrassTop,
        BlockType::TallGrassBottom,
        BlockType::TallDryGrass,
        BlockType::ShortDryGrass,
        BlockType::DeadBush,
        BlockType::Fern,
        BlockType::LargeFernTop,
        BlockType::LargeFernBottom,
        BlockType::Cactus,
        BlockType::CactusFlower,
        BlockType::SweetBerryBushStage1,
        BlockType::SweetBerryBushStage2,
        BlockType::Air,
    ]
}

/// The name of a block kind: the identifier it is declared with.
pub open spec fn kind_name(t: BlockType) -> Seq<char> {
    match t {
        BlockType::GrassBlock => "GrassBlock"@,
        BlockType::SnowyGrassBlock => "SnowyGrassBlock"@,
        BlockType::Dirt => "Dirt"@,
        BlockType::Podzol => "Podzol"@,
        BlockType::Stone => "Stone"@,
        BlockType::Sand => "Sand"@,
        BlockType::OakLog => "OakLog"@,
        BlockType::SpruceLog => "SpruceLog"@,
        BlockType::BirchLog => "BirchLog"@,
        BlockType::JungleLog => "JungleLog"@,
        BlockType::OakLeaves => "OakLeaves"@,
        BlockType::SpruceLeaves => "SpruceLeaves"@,
        BlockType::BirchLeaves => "BirchLeaves"@,
        BlockType::JungleLeaves => "JungleLeaves"@,
        BlockType::OakPlanks => "OakPlanks"@,
        BlockType::Spruceplanks => "Spruceplanks"@,
        BlockType::BirchPlanks => "BirchPlanks"@,
        BlockType::JunglePlanks => "JunglePlanks"@,
        BlockType::AcaciaPlanks => "AcaciaPlanks"@,
        BlockType::DarkOakPlanks => "DarkOakPlanks"@,
        BlockType::MangorvePlanks => "MangorvePlanks"@,
        BlockType::CherryPlanks => "CherryPlanks"@,
        BlockType::BambooPlanks => "BambooPlanks"@,
        BlockType::CrimsonPlanks => "CrimsonPlanks"@,
        BlockType::WarpedPlanks => "WarpedPlanks"@,
        BlockType::PaleOakPlanks => "PaleOakPlanks"@,
        BlockType::Cobblestone => "Cobblestone"@,
        BlockType::MossyCobblestone => "MossyCobblestone"@,
        BlockType::StoneBricks => "StoneBricks"@,
        BlockType::ChiseledStoneBricks => "ChiseledStoneBricks"@,
        BlockType::MossyStoneBricks => "MossyStoneBricks"@,
        BlockType::SmoothStone => "SmoothStone"@,
        BlockType::Sandstone => "Sandstone"@,
        BlockType::ChiseledSandstone => "ChiseledSandstone"@,
        BlockType::CopperBlock => "CopperBlock"@,
        BlockType::DiamondBlock => "DiamondBlock"@,
        BlockType::EmeraldBlock => "EmeraldBlock"@,
        BlockType::GoldBlock => "GoldBlock"@,
        BlockType::IronBlock => "IronBlock"@,
        BlockType::LapisBlock => "LapisBlock"@,
        BlockType::Terracotta => "Terracotta"@,
        BlockType::BlackTerracotta => "BlackTerracotta"@,
        BlockType::BlueTerracotta => "BlueTerracotta"@,
        BlockType::BrownTerracotta => "BrownTerracotta"@,
        BlockType::CyanTerracotta => "CyanTerracotta"@,
        BlockType::GrayTerracotta => "GrayTerracotta"@,
        BlockType::GreenTerracotta => "GreenTerracotta"@,
        BlockType::LightBlueTerracotta => "LightBlueTerracotta"@,
        BlockType::LightGrayTerracotta => "LightGrayTerracotta"@,
        BlockType::LimeTerracotta => "LimeTerracotta"@,
        BlockType::MagentaTerracotta => "MagentaTerracotta"@,
        BlockType::OrangeTerracotta => "OrangeTerracotta"@,
        BlockType::PinkTerracotta => "PinkTerracotta"@,
        BlockType::PurpleTerracotta => "PurpleTerracotta"@,
        BlockType::RedTerracotta => "RedTerracotta"@,
        BlockType::WhiteTerracotta => "WhiteTerracotta"@,
        BlockType::YellowTerracotta => "YellowTerracotta"@,
        BlockType::BlackGlazedTerracotta => "BlackGlazedTerracotta"@,
        BlockType::BlueGlazedTerracotta => "BlueGlazedTerracotta"@,
        BlockType::BrownGlazedTerracotta => "BrownGlazedTerracotta"@,
        BlockType::CyanGlazedTerracotta => "CyanGlazedTerracotta"@,
        BlockType::GrayGlazedTerracotta => "GrayGlazedTerracotta"@,
        BlockType::GreenGlazedTerracotta => "GreenGlazedTerracotta"@,
        BlockType::LightBlueGlazedTerracotta => "LightBlueGlazedTerracotta"@,
        BlockType::LightGrayGlazedTerracotta => "LightGrayGlazedTerracotta"@,
        BlockType::LimeGlazedTerracotta => "LimeGlazedTerracotta"@,
        BlockType::MagentaGlazedTerracotta => "MagentaGlazedTerracotta"@,
        BlockType::OrangeGlazedTerracotta => "OrangeGlazedTerracotta"@,
        BlockType::PinkGlazedTerracotta => "PinkGlazedTerracotta"@,
        BlockType::PurpleGlazedTerracotta => "PurpleGlazedTerracotta"@,
        BlockType::RedGlazedTerracotta => "RedGlazedTerracotta"@,
        BlockType::WhiteGlazedTerracotta => "WhiteGlazedTerracotta"@,
        BlockType::YellowGlazedTerracotta => "YellowGlazedTerracotta"@,
        BlockType::Water => "Water"@,
        BlockType::Snow => "Snow"@,
        BlockType::SnowLayer => "SnowLayer"@,
        BlockType::BrownMushroom => "BrownMushroom"@,
        BlockType::RedMushroom => "RedMushroom"@,
        BlockType::Poppy => "Poppy"@,
        BlockType::PinkTulip => "PinkTulip"@,
        BlockType::TorchFlower => "TorchFlower"@,
        BlockType::ShortGrass => "ShortGrass"@,
        BlockType::TallGrassTop => "TallGrassTop"@,
        BlockType::TallGrassBottom => "TallGrassBottom"@,
        BlockType::TallDryGrass => "TallDryGrass"@,
        BlockType::ShortDryGrass => "ShortDryGrass"@,
        BlockType::DeadBush => "DeadBush"@,
        BlockType::Fern => "Fern"@,
        BlockType::LargeFernTop => "LargeFernTop"@,
        BlockType::LargeFernBottom => "LargeFernBottom"@,
        BlockType::Cactus => "Cactus"@,
        BlockType::CactusFlower => "CactusFlower"@,
        BlockType::SweetBerryBushStage1 => "SweetBerryBushStage1"@,
        BlockType::SweetBerryBushStage2 => "SweetBerryBushStage2"@,
        BlockType::Air => "Air"@,
    }
}

/// Kinds drawn as two crossed planes.
pub open spec fn is_plant_kind(t: BlockType) -> bool {
    ||| t == BlockType::BrownMushroom
        ||| t == BlockType::RedMushroom
        ||| t == BlockType::Poppy
        ||| t == BlockType::PinkTulip
        ||| t == BlockType::TorchFlower
        ||| t == BlockType::ShortGrass
        ||| t == BlockType::TallGrassTop
        ||| t == BlockType::TallGrassBottom
        ||| t == BlockType::TallDryGrass
        ||| t == BlockType::ShortDryGrass
        ||| t == BlockType::DeadBush
        ||| t == BlockType::Fern
        ||| t == BlockType::LargeFernTop
        ||| t == BlockType::LargeFernBottom
        ||| t == BlockType::CactusFlower
        ||| t == BlockType::SweetBerryBushStage1
        ||| t == BlockType::SweetBerryBushStage2
}

/// Kinds drawn as a cube smaller than a full block.
pub open spec fn is_scaled_kind(t: BlockType) -> bool {
    ||| t == BlockType::SnowLayer
        ||| t == BlockType::Cactus
}

/// Kinds through which neighbouring faces stay visible.
pub open spec fn is_see_through_kind(t: BlockType) -> bool {
    ||| t == BlockType::OakLeaves
        ||| t == BlockType::SpruceLeaves
        ||| t == BlockType::BirchLeaves
        ||| t == BlockType::JungleLeaves
        ||| t == BlockType::Water
        ||| t == BlockType::SnowLayer
        ||| t == BlockType::BrownMushroom
        ||| t == BlockType::RedMushroom
        ||| t == BlockType::Poppy
        ||| t == BlockType::PinkTulip
        ||| t == BlockType::TorchFlower
        ||| t == BlockType::ShortGrass
        ||| t == BlockType::TallGrassTop
        ||| t == BlockType::TallGrassBottom
        ||| t == BlockType::TallDryGrass
        ||| t == BlockType::ShortDryGrass
        ||| t == BlockType::DeadBush
        ||| t == BlockType::Fern
        ||| t == BlockType::LargeFernTop
        ||| t == BlockType::LargeFernBottom
        ||| t == BlockType::Cactus
        ||| t == BlockType::CactusFlower
        ||| t == BlockType::SweetBerryBushStage1
        ||| t == BlockType::SweetBerryBushStage2
        ||| t == BlockType::Air
}

/// The texture layout registered for each kind.
pub open spec fn kind_texture(t: BlockType) -> TexturePattern {
    match t {
        BlockType::GrassBlock => TexturePattern::Custom([3, 1, 2, 2, 2, 2]),
        BlockType::SnowyGrassBlock => TexturePattern::Custom([8, 1, 9, 9, 9, 9]),
        BlockType::Dirt => TexturePattern::Uniform(1),
        BlockType::Podzol => TexturePattern::Custom([28, 1, 29, 29, 29, 29]),
        BlockType::Stone => TexturePattern::Uniform(0),
        BlockType::Sand => TexturePattern::Uniform(10),
        BlockType::OakLog => TexturePattern::Custom([5, 5, 4, 4, 4, 4]),
        BlockType::SpruceLog => TexturePattern::Custom([12, 12, 11, 11, 11, 11]),
        BlockType::BirchLog => TexturePattern::Custom([15, 15, 14, 14, 14, 14]),
        BlockType::JungleLog => TexturePattern::Custom([40, 40, 39, 39, 39, 39]),
        BlockType::OakLeaves => TexturePattern::Uniform(6),
        BlockType::SpruceLeaves => TexturePattern::Uniform(13),
        BlockType::BirchLeaves => TexturePattern::Uniform(16),
        BlockType::JungleLeaves => TexturePattern::Uniform(41),
        BlockType::OakPlanks => TexturePattern::Uniform(42),
        BlockType::Spruceplanks => TexturePattern::Uniform(43),
        BlockType::BirchPlanks => TexturePattern::Uniform(44),
        BlockType::JunglePlanks => TexturePattern::Uniform(45),
        BlockType::AcaciaPlanks => TexturePattern::Uniform(46),
        BlockType::DarkOakPlanks => TexturePattern::Uniform(47),
        BlockType::MangorvePlanks => TexturePattern::Uniform(48),
        BlockType::CherryPlanks => TexturePattern::Uniform(49),
        BlockType::BambooPlanks => TexturePattern::Uniform(50),
        BlockType::CrimsonPlanks => TexturePattern::Uniform(51),
        BlockType::WarpedPlanks => TexturePattern::Uniform(52),
        BlockType::PaleOakPlanks => TexturePattern::Uniform(53),
        BlockType::Cobblestone => TexturePattern::Uniform(54),
        BlockType::MossyCobblestone => TexturePattern::Uniform(55),
        BlockType::StoneBricks => TexturePattern::Uniform(56),
        BlockType::ChiseledStoneBricks => TexturePattern::Uniform(57),
        BlockType::MossyStoneBricks => TexturePattern::Uniform(58),
        BlockType::SmoothStone => TexturePattern::Uniform(59),
        BlockType::Sandstone => TexturePattern::Custom([61, 62, 60, 60, 60, 60]),
        BlockType::ChiseledSandstone => TexturePattern::Custom([61, 62, 63, 63, 63, 63]),
        BlockType::CopperBlock => TexturePattern::Uniform(97),
        BlockType::DiamondBlock => TexturePattern::Uniform(98),
        BlockType::EmeraldBlock => TexturePattern::Uniform(99),
        BlockType::GoldBlock => TexturePattern::Uniform(100),
        BlockType::IronBlock => TexturePattern::Uniform(101),
        BlockType::LapisBlock => TexturePattern::Uniform(102),
        BlockType::Terracotta => TexturePattern::Uniform(64),
        BlockType::BlackTerracotta => TexturePattern::Uniform(65),
        BlockType::BlueTerracotta => TexturePattern::Uniform(66),
        BlockType::BrownTerracotta => TexturePattern::Uniform(67),
        BlockType::CyanTerracotta => TexturePattern::Uniform(68),
        BlockType::GrayTerracotta => TexturePattern::Uniform(69),
        BlockType::GreenTerracotta => TexturePattern::Uniform(70),
        BlockType::LightBlueTerracotta => TexturePattern::Uniform(71),
        BlockType::LightGrayTerracotta => TexturePattern::Uniform(72),
        BlockType::LimeTerracotta => TexturePattern::Uniform(73),
        BlockType::MagentaTerracotta => TexturePattern::Uniform(74),
        BlockType::OrangeTerracotta => TexturePattern::Uniform(75),
        BlockType::PinkTerracotta => TexturePattern::Uniform(76),
        BlockType::PurpleTerracotta => TexturePattern::Uniform(77),
        BlockType::RedTerracotta => TexturePattern::Uniform(78),
        BlockType::WhiteTerracotta => TexturePattern::Uniform(79),
        BlockType::YellowTerracotta => TexturePattern::Uniform(80),
        BlockType::BlackGlazedTerracotta => TexturePattern::Uniform(81),
        BlockType::BlueGlazedTerracotta => TexturePattern::Uniform(82),
        BlockType::BrownGlazedTerracotta => TexturePattern::Uniform(83),
        BlockType::CyanGlazedTerracotta => TexturePattern::Uniform(84),
        BlockType::GrayGlazedTerracotta => TexturePattern::Uniform(85),
        BlockType::GreenGlazedTerracotta => TexturePattern::Uniform(86),
        BlockType::LightBlueGlazedTerracotta => TexturePattern::Uniform(87),
        BlockType::LightGrayGlazedTerracotta => TexturePattern::Uniform(88),
        BlockType::LimeGlazedTerracotta => TexturePattern::Uniform(89),
        BlockType::MagentaGlazedTerracotta => TexturePattern::Uniform(90),
        BlockType::OrangeGlazedTerracotta => TexturePattern::Uniform(91),
        BlockType::PinkGlazedTerracotta => TexturePattern::Uniform(92),
        BlockType::PurpleGlazedTerracotta => TexturePattern::Uniform(93),
        BlockType::RedGlazedTerracotta => TexturePattern::Uniform(94),
        BlockType::WhiteGlazedTerracotta => TexturePattern::Uniform(95),
        BlockType::YellowGlazedTerracotta => TexturePattern::Uniform(96),
        BlockType::Water => TexturePattern::Uniform(7),
        BlockType::Snow => TexturePattern::Uniform(8),
        BlockType::SnowLayer => TexturePattern::Uniform(8),
        BlockType::BrownMushroom => TexturePattern::Uniform(17),
        BlockType::RedMushroom => TexturePattern::Uniform(22),
        BlockType::Poppy => TexturePattern::Uniform(18),
        BlockType::PinkTulip => TexturePattern::Uniform(25),
        BlockType::TorchFlower => TexturePattern::Uniform(24),
        BlockType::ShortGrass => TexturePattern::Uniform(19),
        BlockType::TallGrassTop => TexturePattern::Uniform(20),
        BlockType::TallGrassBottom => TexturePattern::Uniform(27),
        BlockType::TallDryGrass => TexturePattern::Uniform(23),
        BlockType::ShortDryGrass => TexturePattern::Uniform(26),
        BlockType::DeadBush => TexturePattern::Uniform(21),
        BlockType::Fern => TexturePattern::Uniform(30),
        BlockType::LargeFernTop => TexturePattern::Uniform(31),
        BlockType::LargeFernBottom => TexturePattern::Uniform(32),
        BlockType::Cactus => TexturePattern::Custom([36, 37, 35, 35, 35, 35]),
        BlockType::CactusFlower => TexturePattern::Uniform(38),
        BlockType::SweetBerryBushStage1 => TexturePattern::Uniform(33),
        BlockType::SweetBerryBushStage2 => TexturePattern::Uniform(34),
        BlockType::Air => TexturePattern::Uniform(0),
    }
}

/// The size registered for each kind.
pub open spec fn kind_dimensions(t: BlockType) -> BlockDimensions {
    match t {
        BlockType::SnowLayer => BlockDimensions { width_pixels: 16, height_pixels: 2, length_pixels: 16 },
        BlockType::Cactus => BlockDimensions { width_pixels: 14, height_pixels: 16, length_pixels: 14 },
        _ => full_dimensions(),
    }
}

/// How a block is drawn.
#[derive(Clone, Copy, Debug, PartialEq, Eq, Structural)]
pub enum RenderType {
    FullCube,
    ScaledCube,
    CrossPlant,
}

/// How a block's texture is turned.
#[derive(Clone, Copy, Debug, PartialEq, Eq, Structural)]
pub enum BlockRotation {
    Unrotated,
    Top,
    Side,
}

/// The six faces of a cube, in the order that custom texture layouts list them.
#[derive(Clone, Copy, Debug, PartialEq, Eq, Structural)]
pub enum FaceDirection {
    Top,
    Bottom,
    Front,
    Back,
    Right,
    Left,
}

/// The position of a face in a custom texture layout.
pub open spec fn face_index(face: FaceDirection) -> int {
    match face {
        FaceDirection::Top => 0,
        FaceDirection::Bottom => 1,
        FaceDirection::Front => 2,
        FaceDirection::Back => 3,
        FaceDirection::Right => 4,
        FaceDirection::Left => 5,
    }
}

impl FaceDirection {
    /// The position of this face in a custom texture layout.
    pub fn index(&self) -> (r: usize)
        ensures
            r == face_index(*self),
    {
        match self {
            FaceDirection::Top => 0,
            FaceDirection::Bottom => 1,
            FaceDirection::Front => 2,
            FaceDirection::Back => 3,
            FaceDirection::Right => 4,
            FaceDirection::Left => 5,
        }
    }
}

/// Which texture of the atlas each face shows.
#[derive(Clone, Copy)]
pub enum TexturePattern {
    /// The same texture on every face.
    Uniform(usize),
    /// One texture per face, indexed by `face_index`.
    Custom([usize; 6]),
}

/// The texture a pattern puts on a face.
pub open spec fn pattern_texture(p: TexturePattern, face: FaceDirection) -> usize {
    match p {
        TexturePattern::Uniform(tex) => tex,
        TexturePattern::Custom(textures) => textures@[face_index(face)],
    }
}

impl TexturePattern {
    /// The texture shown on `face`.
    pub fn get_texture(&self, face: FaceDirection) -> (r: usize)
        ensures
            r == pattern_texture(*self, face),
    {
        match self {
            TexturePattern::Uniform(tex) => *tex,
            TexturePattern::Custom(textures) => textures[face.index()],
        }
    }
}

/// The size of a block in texture pixels; a full block is 16 on each side.
#[derive(Clone, Copy)]
pub struct BlockDimensions {
    pub width_pixels: u32,
    pub height_pixels: u32,
    pub length_pixels: u32,
}

/// The size of a full block.
pub open spec fn full_dimensions() -> BlockDimensions {
    BlockDimensions { width_pixels: 16, height_pixels: 16, length_pixels: 16 }
}

impl BlockDimensions {
    /// The size of a full block.
    pub fn full() -> (r: BlockDimensions)
        ensures
            r == full_dimensions(),
    {
        BlockDimensions { width_pixels: 16, height_pixels: 16, length_pixels: 16 }
    }

    /// A size given in pixels.
    pub fn from_pixels(width: u32, height: u32, length: u32) -> (r: BlockDimensions)
        ensures
            r == (BlockDimensions { width_pixels: width, height_pixels: height, length_pixels: length }),
    {
        BlockDimensions { width_pixels: width, height_pixels: height, length_pixels: length }
    }
}

/// How a kind is drawn according to the registry.
pub open spec fn kind_render_type(t: BlockType) -> RenderType {
    if is_plant_kind(t) {
        RenderType::CrossPlant
    } else if is_scaled_kind(t) {
        RenderType::ScaledCube
    } else {
        RenderType::FullCube
    }
}

/// The nameless part of a registry entry.
struct BlockEntry {
    render_type: RenderType,
    dimensions: BlockDimensions,
    is_transparent: bool,
    texture: TexturePattern,
}

spec fn kind_entry(t: BlockType) -> BlockEntry {
    BlockEntry {
        render_type: kind_render_type(t),
        dimensions: kind_dimensions(t),
        is_transparent: is_see_through_kind(t),
        texture: kind_texture(t),
    }
}

/// A registered block: its name and how it is drawn.
#[derive(Clone)]
pub struct Block {
    pub name: String,
    pub render_type: RenderType,
    pub dimensions: BlockDimensions,
    pub is_transparent: bool,
    pub texture: TexturePattern,
    pub rotation: BlockRotation,
}

impl Block {
    /// Whether this is the block the registry holds for kind `t`.
    pub open spec fn describes(&self, t: BlockType) -> bool {
        &&& self.name@ == kind_name(t)
        &&& self.render_type == kind_render_type(t)
        &&& self.dimensions == kind_dimensions(t)
        &&& self.is_transparent == is_see_through_kind(t)
        &&& self.texture == kind_texture(t)
        &&& self.rotation == BlockRotation::Unrotated
    }

    /// A full-sized, unturned block.
    fn new(name: &str, render_type: RenderType, is_transparent: bool, texture: TexturePattern) -> (r: Block)
        ensures
            r.name@ == name@,
            r.render_type == render_type,
            r.dimensions == full_dimensions(),
            r.is_transparent == is_transparent,
            r.texture == texture,
            r.rotation == BlockRotation::Unrotated,
    {
        Block {
            name: String::from_str(name),
            render_type,
            dimensions: BlockDimensions::full(),
            is_transparent,
            texture,
            rotation: BlockRotation::Unrotated,
        }
    }

    /// The same block with another size.
    fn with_dimensions(self, dimensions: BlockDimensions) -> (r: Block)
        ensures
            r == (Block { dimensions, ..self }),
    {
        let mut b = self;
        b.dimensions = dimensions;
        b
    }

    /// The same block turned another way.
    fn with_rotation(self, rotation: BlockRotation) -> (r: Block)
        ensures
            r == (Block { rotation, ..self }),
    {
        let mut b = self;
        b.rotation = rotation;
        b
    }

    /// The registered block of kind `t`.
    fn for_type(t: BlockType) -> (r: Block)
        ensures
            r.describes(t),
    {
        let e = t.registered_entry();
        let b = Block::new(t.name(), e.render_type, e.is_transparent, e.texture);
        if t.is_scaled() {
            b.with_dimensions(e.dimensions)
        } else {
            b
        }
    }
}

/// The table of registered blocks, one entry per kind.
pub struct BlockRegistry {
    blocks: Vec<Option<Block>>,
}

impl BlockRegistry {
    #[verifier::type_invariant]
    spec fn wf(&self) -> bool {
        self.blocks@.len() == BLOCK_TYPE_COUNT
    }

    /// The entry held for kind `t`.
    pub closed spec fn entry(&self, t: BlockType) -> Option<Block> {
        self.blocks@[type_index(t)]
    }

    /// The registry of every block kind.
    pub fn new() -> (r: BlockRegistry)
        ensures
            forall|t: BlockType| (#[trigger] r.entry(t) matches Some(b) && b.describes(t)),
    {
        let kinds = BlockType::all();
        let mut blocks: Vec<Option<Block>> = Vec::new();
        let n = kinds.len();
        proof {
            lemma_all_block_types();
        }
        for i in 0..n
            invariant
                n == BLOCK_TYPE_COUNT,
                kinds@ == all_block_types(),
                blocks@.len() == i,
                forall|j: int| 0 <= j < i ==> (#[trigger] blocks@[j] matches Some(b) && b.describes(all_block_types()[j])),
        {
            blocks.push(Some(Block::for_type(kinds[i])));
        }
        proof {
            assert forall|t: BlockType| (#[trigger] blocks@[type_index(t)] matches Some(b) && b.describes(t)) by {
                lemma_type_index(t);
            }
        }
        BlockRegistry { blocks }
    }

    /// The block registered for kind `t`.
    pub fn get_block(&self, t: BlockType) -> (r: Option<&Block>)
        ensures
            match r {
                Some(b) => self.entry(t) == Some(*b),
                None => self.entry(t) is None,
            },
    {
        proof {
            use_type_invariant(self);
        }
        match &self.blocks[t.index()] {
            Some(b) => Some(b),
            None => None,
        }
    }

    /// Whether kind `t` lets neighbouring faces show; unregistered kinds do.
    pub fn is_transparent(&self, t: BlockType) -> (r: bool)
        ensures
            r == match self.entry(t) {
                Some(b) => b.is_transparent,
                None => true,
            },
    {
        match self.get_block(t) {
            Some(b) => b.is_transparent,
            None => true,
        }
    }
}

/// How a kind is drawn, without its name.
#[derive(Clone, Copy)]
pub struct BlockProperties {
    pub render_type: RenderType,
    pub dimensions: BlockDimensions,
}

/// Each kind sits at its own index in the declaration-order list.
pub proof fn lemma_type_index(t: BlockType)
    ensures
        0 <= type_index(t) < BLOCK_TYPE_COUNT,
        all_block_types().len() == BLOCK_TYPE_COUNT,
        all_block_types()[type_index(t)] == t,
{
    lemma_all_block_types();
}

/// The declaration-order list has one entry per kind.
pub proof fn lemma_all_block_types()
    ensures
        all_block_types().len() == BLOCK_TYPE_COUNT,
        forall|i: int| 0 <= i < BLOCK_TYPE_COUNT ==> type_index(#[trigger] all_block_types()[i]) == i,
{
}

impl BlockType {
    /// The position of this kind in declaration order.
    pub fn index(&self) -> (r: usize)
        ensures
            r == type_index(*self),
            r < BLOCK_TYPE_COUNT,
    {
        match self {
            BlockType::GrassBlock => 0,
            BlockType::SnowyGrassBlock => 1,
            BlockType::Dirt => 2,
            BlockType::Podzol => 3,
            BlockType::Stone => 4,
            BlockType::Sand => 5,
            BlockType::OakLog => 6,
            BlockType::SpruceLog => 7,
            BlockType::BirchLog => 8,
            BlockType::JungleLog => 9,
            BlockType::OakLeaves => 10,
            BlockType::SpruceLeaves => 11,
            BlockType::BirchLeaves => 12,
            BlockType::JungleLeaves => 13,
            BlockType::OakPlanks => 14,
            BlockType::Spruceplanks => 15,
            BlockType::BirchPlanks => 16,
            BlockType::JunglePlanks => 17,
            BlockType::AcaciaPlanks => 18,
            BlockType::DarkOakPlanks => 19,
            BlockType::MangorvePlanks => 20,
            BlockType::CherryPlanks => 21,
            BlockType::BambooPlanks => 22,
            BlockType::CrimsonPlanks => 23,
            BlockType::WarpedPlanks => 24,
            BlockType::PaleOakPlanks => 25,
            BlockType::Cobblestone => 26,
            BlockType::MossyCobblestone => 27,
            BlockType::StoneBricks => 28,
            BlockType::ChiseledStoneBricks => 29,
            BlockType::MossyStoneBricks => 30,
            BlockType::SmoothStone => 31,
            BlockType::Sandstone => 32,
            BlockType::ChiseledSandstone => 33,
            BlockType::CopperBlock => 34,
            BlockType::DiamondBlock => 35,
            BlockType::EmeraldBlock => 36,
            BlockType::GoldBlock => 37,
            BlockType::IronBlock => 38,
            BlockType::LapisBlock => 39,
            BlockType::Terracotta => 40,
            BlockType::BlackTerracotta => 41,
            BlockType::BlueTerracotta => 42,
            BlockType::BrownTerracotta => 43,
            BlockType::CyanTerracotta => 44,
            BlockType::GrayTerracotta => 45,
            BlockType::GreenTerracotta => 46,
            BlockType::LightBlueTerracotta => 47,
            BlockType::LightGrayTerracotta => 48,
            BlockType::LimeTerracotta => 49,
            BlockType::MagentaTerracotta => 50,
            BlockType::OrangeTerracotta => 51,
            BlockType::PinkTerracotta => 52,
            BlockType::PurpleTerracotta => 53,
            BlockType::RedTerracotta => 54,
            BlockType::WhiteTerracotta => 55,
            BlockType::YellowTerracotta => 56,
            BlockType::BlackGlazedTerracotta => 57,
            BlockType::BlueGlazedTerracotta => 58,
            BlockType::BrownGlazedTerracotta => 59,
            BlockType::CyanGlazedTerracotta => 60,
            BlockType::GrayGlazedTerracotta => 61,
            BlockType::GreenGlazedTerracotta => 62,
            BlockType::LightBlueGlazedTerracotta => 63,
            BlockType::LightGrayGlazedTerracotta => 64,
            BlockType::LimeGlazedTerracotta => 65,
            BlockType::MagentaGlazedTerracotta => 66,
            BlockType::OrangeGlazedTerracotta => 67,
            BlockType::PinkGlazedTerracotta => 68,
            BlockType::PurpleGlazedTerracotta => 69,
            BlockType::RedGlazedTerracotta => 70,
            BlockType::WhiteGlazedTerracotta => 71,
            BlockType::YellowGlazedTerracotta => 72,
            BlockType::Water => 73,
            BlockType::Snow => 74,
            BlockType::SnowLayer => 75,
            BlockType::BrownMushroom => 76,
            BlockType::RedMushroom => 77,
            BlockType::Poppy => 78,
            BlockType::PinkTulip => 79,
            BlockType::TorchFlower => 80,
            BlockType::ShortGrass => 81,
            BlockType::TallGrassTop => 82,
            BlockType::TallGrassBottom => 83,
            BlockType::TallDryGrass => 84,
            BlockType::ShortDryGrass => 85,
            BlockType::DeadBush => 86,
            BlockType::Fern => 87,
            BlockType::LargeFernTop => 88,
            BlockType::LargeFernBottom => 89,
            BlockType::Cactus => 90,
            BlockType::CactusFlower => 91,
            BlockType::SweetBerryBushStage1 => 92,
            BlockType::SweetBerryBushStage2 => 93,
            BlockType::Air => 94,
        }
    }

    /// The name this kind is declared with.
    pub fn name(&self) -> (r: &'static str)
        ensures
            r@ == kind_name(*self),
    {
        match self {
            BlockType::GrassBlock => "GrassBlock",
            BlockType::SnowyGrassBlock => "SnowyGrassBlock",
            BlockType::Dirt => "Dirt",
            BlockType::Podzol => "Podzol",
            BlockType::Stone => "Stone",
            BlockType::Sand => "Sand",
            BlockType::OakLog => "OakLog",
            BlockType::SpruceLog => "SpruceLog",
            BlockType::BirchLog => "BirchLog",
            BlockType::JungleLog => "JungleLog",
            BlockType::OakLeaves => "OakLeaves",
            BlockType::SpruceLeaves => "SpruceLeaves",
            BlockType::BirchLeaves => "BirchLeaves",
            BlockType::JungleLeaves => "JungleLeaves",
            BlockType::OakPlanks => "OakPlanks",
            BlockType::Spruceplanks => "Spruceplanks",
            BlockType::BirchPlanks => "BirchPlanks",
            BlockType::JunglePlanks => "JunglePlanks",
            BlockType::AcaciaPlanks => "AcaciaPlanks",
            BlockType::DarkOakPlanks => "DarkOakPlanks",
            BlockType::MangorvePlanks => "MangorvePlanks",
            BlockType::CherryPlanks => "CherryPlanks",
            BlockType::BambooPlanks => "BambooPlanks",
            BlockType::CrimsonPlanks => "CrimsonPlanks",
            BlockType::WarpedPlanks => "WarpedPlanks",
            BlockType::PaleOakPlanks => "PaleOakPlanks",
            BlockType::Cobblestone => "Cobblestone",
            BlockType::MossyCobblestone => "MossyCobblestone",
            BlockType::StoneBricks => "StoneBricks",
            BlockType::ChiseledStoneBricks => "ChiseledStoneBricks",
            BlockType::MossyStoneBricks => "MossyStoneBricks",
            BlockType::SmoothStone => "SmoothStone",
            BlockType::Sandstone => "Sandstone",
            BlockType::ChiseledSandstone => "ChiseledSandstone",
            BlockType::CopperBlock => "CopperBlock",
            BlockType::DiamondBlock => "DiamondBlock",
            BlockType::EmeraldBlock => "EmeraldBlock",
            BlockType::GoldBlock => "GoldBlock",
            BlockType::IronBlock => "IronBlock",
            BlockType::LapisBlock => "LapisBlock",
            BlockType::Terracotta => "Terracotta",
            BlockType::BlackTerracotta => "BlackTerracotta",
            BlockType::BlueTerracotta => "BlueTerracotta",
            BlockType::BrownTerracotta => "BrownTerracotta",
            BlockType::CyanTerracotta => "CyanTerracotta",
            BlockType::GrayTerracotta => "GrayTerracotta",
            BlockType::GreenTerracotta => "GreenTerracotta",
            BlockType::LightBlueTerracotta => "LightBlueTerracotta",
            BlockType::LightGrayTerracotta => "LightGrayTerracotta",
            BlockType::LimeTerracotta => "LimeTerracotta",
            BlockType::MagentaTerracotta => "MagentaTerracotta",
            BlockType::OrangeTerracotta => "OrangeTerracotta",
            BlockType::PinkTerracotta => "PinkTerracotta",
            BlockType::PurpleTerracotta => "PurpleTerracotta",
            BlockType::RedTerracotta => "RedTerracotta",
            BlockType::WhiteTerracotta => "WhiteTerracotta",
            BlockType::YellowTerracotta => "YellowTerracotta",
            BlockType::BlackGlazedTerracotta => "BlackGlazedTerracotta",
            BlockType::BlueGlazedTerracotta => "BlueGlazedTerracotta",
            BlockType::BrownGlazedTerracotta => "BrownGlazedTerracotta",
            BlockType::CyanGlazedTerracotta => "CyanGlazedTerracotta",
            BlockType::GrayGlazedTerracotta => "GrayGlazedTerracotta",
            BlockType::GreenGlazedTerracotta => "GreenGlazedTerracotta",
            BlockType::LightBlueGlazedTerracotta => "LightBlueGlazedTerracotta",
            BlockType::LightGrayGlazedTerracotta => "LightGrayGlazedTerracotta",
            BlockType::LimeGlazedTerracotta => "LimeGlazedTerracotta",
            BlockType::MagentaGlazedTerracotta => "MagentaGlazedTerracotta",
            BlockType::OrangeGlazedTerracotta => "OrangeGlazedTerracotta",
            BlockType::PinkGlazedTerracotta => "PinkGlazedTerracotta",
            BlockType::PurpleGlazedTerracotta => "PurpleGlazedTerracotta",
            BlockType::RedGlazedTerracotta => "RedGlazedTerracotta",
            BlockType::WhiteGlazedTerracotta => "WhiteGlazedTerracotta",
            BlockType::YellowGlazedTerracotta => "YellowGlazedTerracotta",
            BlockType::Water => "Water",
            BlockType::Snow => "Snow",
            BlockType::SnowLayer => "SnowLayer",
            BlockType::BrownMushroom => "BrownMushroom",
            BlockType::RedMushroom => "RedMushroom",
            BlockType::Poppy => "Poppy",
            BlockType::PinkTulip => "PinkTulip",
            BlockType::TorchFlower => "TorchFlower",
            BlockType::ShortGrass => "ShortGrass",
            BlockType::TallGrassTop => "TallGrassTop",
            BlockType::TallGrassBottom => "TallGrassBottom",
            BlockType::TallDryGrass => "TallDryGrass",
            BlockType::ShortDryGrass => "ShortDryGrass",
            BlockType::DeadBush => "DeadBush",
            BlockType::Fern => "Fern",
            BlockType::LargeFernTop => "LargeFernTop",
            BlockType::LargeFernBottom => "LargeFernBottom",
            BlockType::Cactus => "Cactus",
            BlockType::CactusFlower => "CactusFlower",
            BlockType::SweetBerryBushStage1 => "SweetBerryBushStage1",
            BlockType::SweetBerryBushStage2 => "SweetBerryBushStage2",
            BlockType::Air => "Air",
        }
    }

    /// Every block kind, in declaration order.
    pub fn all() -> (r: Vec<BlockType>)
        ensures
            r@ == all_block_types(),
    {
        let v: Vec<BlockType> = vec![
            BlockType::GrassBlock,
            BlockType::SnowyGrassBlock,
            BlockType::Dirt,
            BlockType::Podzol,
            BlockType::Stone,
            BlockType::Sand,
            BlockType::OakLog,
            BlockType::SpruceLog,
            BlockType::BirchLog,
            BlockType::JungleLog,
            BlockType::OakLeaves,
            BlockType::SpruceLeaves,
            BlockType::BirchLeaves,
            BlockType::JungleLeaves,
            BlockType::OakPlanks,
            BlockType::Spruceplanks,
            BlockType::BirchPlanks,
            BlockType::JunglePlanks,
            BlockType::AcaciaPlanks,
            BlockType::DarkOakPlanks,
            BlockType::MangorvePlanks,
            BlockType::CherryPlanks,
            BlockType::BambooPlanks,
            BlockType::CrimsonPlanks,
            BlockType::WarpedPlanks,
            BlockType::PaleOakPlanks,
            BlockType::Cobblestone,
            BlockType::MossyCobblestone,
            BlockType::StoneBricks,
            BlockType::ChiseledStoneBricks,
            BlockType::MossyStoneBricks,
            BlockType::SmoothStone,
            BlockType::Sandstone,
            BlockType::ChiseledSandstone,
            BlockType::CopperBlock,
            BlockType::DiamondBlock,
            BlockType::EmeraldBlock,
            BlockType::GoldBlock,
            BlockType::IronBlock,
            BlockType::LapisBlock,
            BlockType::Terracotta,
            BlockType::BlackTerracotta,
            BlockType::BlueTerracotta,
            BlockType::BrownTerracotta,
            BlockType::CyanTerracotta,
            BlockType::GrayTerracotta,
            BlockType::GreenTerracotta,
            BlockType::LightBlueTerracotta,
            BlockType::LightGrayTerracotta,
            BlockType::LimeTerracotta,
            BlockType::MagentaTerracotta,
            BlockType::OrangeTerracotta,
            BlockType::PinkTerracotta,
            BlockType::PurpleTerracotta,
            BlockType::RedTerracotta,
            BlockType::WhiteTerracotta,
            BlockType::YellowTerracotta,
            BlockType::BlackGlazedTerracotta,
            BlockType::BlueGlazedTerracotta,
            BlockType::BrownGlazedTerracotta,
            BlockType::CyanGlazedTerracotta,
            BlockType::GrayGlazedTerracotta,
            BlockType::GreenGlazedTerracotta,
            BlockType::LightBlueGlazedTerracotta,
            BlockType::LightGrayGlazedTerracotta,
            BlockType::LimeGlazedTerracotta,
            BlockType::MagentaGlazedTerracotta,
            BlockType::OrangeGlazedTerracotta,
            BlockType::PinkGlazedTerracotta,
            BlockType::PurpleGlazedTerracotta,
            BlockType::RedGlazedTerracotta,
            BlockType::WhiteGlazedTerracotta,
            BlockType::YellowGlazedTerracotta,
            BlockType::Water,
            BlockType::Snow,
            BlockType::SnowLayer,
            BlockType::BrownMushroom,
            BlockType::RedMushroom,
            BlockType::Poppy,
            BlockType::PinkTulip,
            BlockType::TorchFlower,
            BlockType::ShortGrass,
            BlockType::TallGrassTop,
            BlockType::TallGrassBottom,
            BlockType::TallDryGrass,
            BlockType::ShortDryGrass,
            BlockType::DeadBush,
            BlockType::Fern,
            BlockType::LargeFernTop,
            BlockType::LargeFernBottom,
            BlockType::Cactus,
            BlockType::CactusFlower,
            BlockType::SweetBerryBushStage1,
            BlockType::SweetBerryBushStage2,
            BlockType::Air,
        ];
        assert(v@ =~= all_block_types());
        v
    }

    /// The entry registered for this kind.
    fn registered_entry(&self) -> (r: BlockEntry)
        ensures
            r == kind_entry(*self),
    {
        match self {
            BlockType::GrassBlock => BlockEntry { render_type: RenderType::FullCube, dimensions: BlockDimensions::full(), is_transparent: false, texture: TexturePattern::Custom([3, 1, 2, 2, 2, 2]) },
            BlockType::SnowyGrassBlock => BlockEntry { render_type: RenderType::FullCube, dimensions: BlockDimensions::full(), is_transparent: false, texture: TexturePattern::Custom([8, 1, 9, 9, 9, 9]) },
            BlockType::Dirt => BlockEntry { render_type: RenderType::FullCube, dimensions: BlockDimensions::full(), is_transparent: false, texture: TexturePattern::Uniform(1) },
            BlockType::Podzol => BlockEntry { render_type: RenderType::FullCube, dimensions: BlockDimensions::full(), is_transparent: false, texture: TexturePattern::Custom([28, 1, 29, 29, 29, 29]) },
            BlockType::Stone => BlockEntry { render_type: RenderType::FullCube, dimensions: BlockDimensions::full(), is_transparent: false, texture: TexturePattern::Uniform(0) },
            BlockType::Sand => BlockEntry { render_type: RenderType::FullCube, dimensions: BlockDimensions::full(), is_transparent: false, texture: TexturePattern::Uniform(10) },
            BlockType::OakLog => BlockEntry { render_type: RenderType::FullCube, dimensions: BlockDimensions::full(), is_transparent: false, texture: TexturePattern::Custom([5, 5, 4, 4, 4, 4]) },
            BlockType::SpruceLog => BlockEntry { render_type: RenderType::FullCube, dimensions: BlockDimensions::full(), is_transparent: false, texture: TexturePattern::Custom([12, 12, 11, 11, 11, 11]) },
            BlockType::BirchLog => BlockEntry { render_type: RenderType::FullCube, dimensions: BlockDimensions::full(), is_transparent: false, texture: TexturePattern::Custom([15, 15, 14, 14, 14, 14]) },
            BlockType::JungleLog => BlockEntry { render_type: RenderType::FullCube, dimensions: BlockDimensions::full(), is_transparent: false, texture: TexturePattern::Custom([40, 40, 39, 39, 39, 39]) },
            BlockType::OakLeaves => BlockEntry { render_type: RenderType::FullCube, dimensions: BlockDimensions::full(), is_transparent: true, texture: TexturePattern::Uniform(6) },
            BlockType::SpruceLeaves => BlockEntry { render_type: RenderType::FullCube, dimensions: BlockDimensions::full(), is_transparent: true, texture: TexturePattern::Uniform(13) },
            BlockType::BirchLeaves => BlockEntry { render_type: RenderType::FullCube, dimensions: BlockDimensions::full(), is_transparent: true, texture: TexturePattern::Uniform(16) },
            BlockType::JungleLeaves => BlockEntry { render_type: RenderType::FullCube, dimensions: BlockDimensions::full(), is_transparent: true, texture: TexturePattern::Uniform(41) },
            BlockType::OakPlanks => BlockEntry { render_type: RenderType::FullCube, dimensions: BlockDimensions::full(), is_transparent: false, texture: TexturePattern::Uniform(42) },
            BlockType::Spruceplanks => BlockEntry { render_type: RenderType::FullCube, dimensions: BlockDimensions::full(), is_transparent: false, texture: TexturePattern::Uniform(43) },
            BlockType::BirchPlanks => BlockEntry { render_type: RenderType::FullCube, dimensions: BlockDimensions::full(), is_transparent: false, texture: TexturePattern::Uniform(44) },
            BlockType::JunglePlanks => BlockEntry { render_type: RenderType::FullCube, dimensions: BlockDimensions::full(), is_transparent: false, texture: TexturePattern::Uniform(45) },
            BlockType::AcaciaPlanks => BlockEntry { render_type: RenderType::FullCube, dimensions: BlockDimensions::full(), is_transparent: false, texture: TexturePattern::Uniform(46) },
            BlockType::DarkOakPlanks => BlockEntry { render_type: RenderType::FullCube, dimensions: BlockDimensions::full(), is_transparent: false, texture: TexturePattern::Uniform(47) },
            BlockType::MangorvePlanks => BlockEntry { render_type: RenderType::FullCube, dimensions: BlockDimensions::full(), is_transparent: false, texture: TexturePattern::Uniform(48) },
            BlockType::CherryPlanks => BlockEntry { render_type: RenderType::FullCube, dimensions: BlockDimensions::full(), is_transparent: false, texture: TexturePattern::Uniform(49) },
            BlockType::BambooPlanks => BlockEntry { render_type: RenderType::FullCube, dimensions: BlockDimensions::full(), is_transparent: false, texture: TexturePattern::Uniform(50) },
            BlockType::CrimsonPlanks => BlockEntry { render_type: RenderType::FullCube, dimensions: BlockDimensions::full(), is_transparent: false, texture: TexturePattern::Uniform(51) },
            BlockType::WarpedPlanks => BlockEntry { render_type: RenderType::FullCube, dimensions: BlockDimensions::full(), is_transparent: false, texture: TexturePattern::Uniform(52) },
            BlockType::PaleOakPlanks => BlockEntry { render_type: RenderType::FullCube, dimensions: BlockDimensions::full(), is_transparent: false, texture: TexturePattern::Uniform(53) },
            BlockType::Cobblestone => BlockEntry { render_type: RenderType::FullCube, dimensions: BlockDimensions::full(), is_transparent: false, texture: TexturePattern::Uniform(54) },
            BlockType::MossyCobblestone => BlockEntry { render_type: RenderType::FullCube, dimensions: BlockDimensions::full(), is_transparent: false, texture: TexturePattern::Uniform(55) },
            BlockType::StoneBricks => BlockEntry { render_type: RenderType::FullCube, dimensions: BlockDimensions::full(), is_transparent: false, texture: TexturePattern::Uniform(56) },
            BlockType::ChiseledStoneBricks => BlockEntry { render_type: RenderType::FullCube, dimensions: BlockDimensions::full(), is_transparent: false, texture: TexturePattern::Uniform(57) },
            BlockType::MossyStoneBricks => BlockEntry { render_type: RenderType::FullCube, dimensions: BlockDimensions::full(), is_transparent: false, texture: TexturePattern::Uniform(58) },
            BlockType::SmoothStone => BlockEntry { render_type: RenderType::FullCube, dimensions: BlockDimensions::full(), is_transparent: false, texture: TexturePattern::Uniform(59) },
            BlockType::Sandstone => BlockEntry { render_type: RenderType::FullCube, dimensions: BlockDimensions::full(), is_transparent: false, texture: TexturePattern::Custom([61, 62, 60, 60, 60, 60]) },
            BlockType::ChiseledSandstone => BlockEntry { render_type: RenderType::FullCube, dimensions: BlockDimensions::full(), is_transparent: false, texture: TexturePattern::Custom([61, 62, 63, 63, 63, 63]) },
            BlockType::CopperBlock => BlockEntry { render_type: RenderType::FullCube, dimensions: BlockDimensions::full(), is_transparent: false, texture: TexturePattern::Uniform(97) },
            BlockType::DiamondBlock => BlockEntry { render_type: RenderType::FullCube, dimensions: BlockDimensions::full(), is_transparent: false, texture: TexturePattern::Uniform(98) },
            BlockType::EmeraldBlock => BlockEntry { render_type: RenderType::FullCube, dimensions: BlockDimensions::full(), is_transparent: false, texture: TexturePattern::Uniform(99) },
            BlockType::GoldBlock => BlockEntry { render_type: RenderType::FullCube, dimensions: BlockDimensions::full(), is_transparent: false, texture: TexturePattern::Uniform(100) },
            BlockType::IronBlock => BlockEntry { render_type: RenderType::FullCube, dimensions: BlockDimensions::full(), is_transparent: false, texture: TexturePattern::Uniform(101) },
            BlockType::LapisBlock => BlockEntry { render_type: RenderType::FullCube, dimensions: BlockDimensions::full(), is_transparent: false, texture: TexturePattern::Uniform(102) },
            BlockType::Terracotta => BlockEntry { render_type: RenderType::FullCube, dimensions: BlockDimensions::full(), is_transparent: false, texture: TexturePattern::Uniform(64) },
            BlockType::BlackTerracotta => BlockEntry { render_type: RenderType::FullCube, dimensions: BlockDimensions::full(), is_transparent: false, texture: TexturePattern::Uniform(65) },
            BlockType::BlueTerracotta => BlockEntry { render_type: RenderType::FullCube, dimensions: BlockDimensions::full(), is_transparent: false, texture: TexturePattern::Uniform(66) },
            BlockType::BrownTerracotta => BlockEntry { render_type: RenderType::FullCube, dimensions: BlockDimensions::full(), is_transparent: false, texture: TexturePattern::Uniform(67) },
            BlockType::CyanTerracotta => BlockEntry { render_type: RenderType::FullCube, dimensions: BlockDimensions::full(), is_transparent: false, texture: TexturePattern::Uniform(68) },
            BlockType::GrayTerracotta => BlockEntry { render_type: RenderType::FullCube, dimensions: BlockDimensions::full(), is_transparent: false, texture: TexturePattern::Uniform(69) },
            BlockType::GreenTerracotta => BlockEntry { render_type: RenderType::FullCube, dimensions: BlockDimensions::full(), is_transparent: false, texture: TexturePattern::Uniform(70) },
            BlockType::LightBlueTerracotta => BlockEntry { render_type: RenderType::FullCube, dimensions: BlockDimensions::full(), is_transparent: false, texture: TexturePattern::Uniform(71) },
            BlockType::LightGrayTerracotta => BlockEntry { render_type: RenderType::FullCube, dimensions: BlockDimensions::full(), is_transparent: false, texture: TexturePattern::Uniform(72) },
            BlockType::LimeTerracotta => BlockEntry { render_type: RenderType::FullCube, dimensions: BlockDimensions::full(), is_transparent: false, texture: TexturePattern::Uniform(73) },
            BlockType::MagentaTerracotta => BlockEntry { render_type: RenderType::FullCube, dimensions: BlockDimensions::full(), is_transparent: false, texture: TexturePattern::Uniform(74) },
            BlockType::OrangeTerracotta => BlockEntry { render_type: RenderType::FullCube, dimensions: BlockDimensions::full(), is_transparent: false, texture: TexturePattern::Uniform(75) },
            BlockType::PinkTerracotta => BlockEntry { render_type: RenderType::FullCube, dimensions: BlockDimensions::full(), is_transparent: false, texture: TexturePattern::Uniform(76) },
            BlockType::PurpleTerracotta => BlockEntry { render_type: RenderType::FullCube, dimensions: BlockDimensions::full(), is_transparent: false, texture: TexturePattern::Uniform(77) },
            BlockType::RedTerracotta => BlockEntry { render_type: RenderType::FullCube, dimensions: BlockDimensions::full(), is_transparent: false, texture: TexturePattern::Uniform(78) },
            BlockType::WhiteTerracotta => BlockEntry { render_type: RenderType::FullCube, dimensions: BlockDimensions::full(), is_transparent: false, texture: TexturePattern::Uniform(79) },
            BlockType::YellowTerracotta => BlockEntry { render_type: RenderType::FullCube, dimensions: BlockDimensions::full(), is_transparent: false, texture: TexturePattern::Uniform(80) },
            BlockType::BlackGlazedTerracotta => BlockEntry { render_type: RenderType::FullCube, dimensions: BlockDimensions::full(), is_transparent: false, texture: TexturePattern::Uniform(81) },
            BlockType::BlueGlazedTerracotta => BlockEntry { render_type: RenderType::FullCube, dimensions: BlockDimensions::full(), is_transparent: false, texture: TexturePattern::Uniform(82) },
            BlockType::BrownGlazedTerracotta => BlockEntry { render_type: RenderType::FullCube, dimensions: BlockDimensions::full(), is_transparent: false, texture: TexturePattern::Uniform(83) },
            BlockType::CyanGlazedTerracotta => BlockEntry { render_type: RenderType::FullCube, dimensions: BlockDimensions::full(), is_transparent: false, texture: TexturePattern::Uniform(84) },
            BlockType::GrayGlazedTerracotta => BlockEntry { render_type: RenderType::FullCube, dimensions: BlockDimensions::full(), is_transparent: false, texture: TexturePattern::Uniform(85) },
            BlockType::GreenGlazedTerracotta => BlockEntry { render_type: RenderType::FullCube, dimensions: BlockDimensions::full(), is_transparent: false, texture: TexturePattern::Uniform(86) },
            BlockType::LightBlueGlazedTerracotta => BlockEntry { render_type: RenderType::FullCube, dimensions: BlockDimensions::full(), is_transparent: false, texture: TexturePattern::Uniform(87) },
            BlockType::LightGrayGlazedTerracotta => BlockEntry { render_type: RenderType::FullCube, dimensions: BlockDimensions::full(), is_transparent: false, texture: TexturePattern::Uniform(88) },
            BlockType::LimeGlazedTerracotta => BlockEntry { render_type: RenderType::FullCube, dimensions: BlockDimensions::full(), is_transparent: false, texture: TexturePattern::Uniform(89) },
            BlockType::MagentaGlazedTerracotta => BlockEntry { render_type: RenderType::FullCube, dimensions: BlockDimensions::full(), is_transparent: false, texture: TexturePattern::Uniform(90) },
            BlockType::OrangeGlazedTerracotta => BlockEntry { render_type: RenderType::FullCube, dimensions: BlockDimensions::full(), is_transparent: false, texture: TexturePattern::Uniform(91) },
            BlockType::PinkGlazedTerracotta => BlockEntry { render_type: RenderType::FullCube, dimensions: BlockDimensions::full(), is_transparent: false, texture: TexturePattern::Uniform(92) },
            BlockType::PurpleGlazedTerracotta => BlockEntry { render_type: RenderType::FullCube, dimensions: BlockDimensions::full(), is_transparent: false, texture: TexturePattern::Uniform(93) },
            BlockType::RedGlazedTerracotta => BlockEntry { render_type: RenderType::FullCube, dimensions: BlockDimensions::full(), is_transparent: false, texture: TexturePattern::Uniform(94) },
            BlockType::WhiteGlazedTerracotta => BlockEntry { render_type: RenderType::FullCube, dimensions: BlockDimensions::full(), is_transparent: false, texture: TexturePattern::Uniform(95) },
            BlockType::YellowGlazedTerracotta => BlockEntry { render_type: RenderType::FullCube, dimensions: BlockDimensions::full(), is_transparent: false, texture: TexturePattern::Uniform(96) },
            BlockType::Water => BlockEntry { render_type: RenderType::FullCube, dimensions: BlockDimensions::full(), is_transparent: true, texture: TexturePattern::Uniform(7) },
            BlockType::Snow => BlockEntry { render_type: RenderType::FullCube, dimensions: BlockDimensions::full(), is_transparent: false, texture: TexturePattern::Uniform(8) },
            BlockType::SnowLayer => BlockEntry { render_type: RenderType::ScaledCube, dimensions: BlockDimensions { width_pixels: 16, height_pixels: 2, length_pixels: 16 }, is_transparent: true, texture: TexturePattern::Uniform(8) },
            BlockType::BrownMushroom => BlockEntry { render_type: RenderType::CrossPlant, dimensions: BlockDimensions::full(), is_transparent: true, texture: TexturePattern::Uniform(17) },
            BlockType::RedMushroom => BlockEntry { render_type: RenderType::CrossPlant, dimensions: BlockDimensions::full(), is_transparent: true, texture: TexturePattern::Uniform(22) },
            BlockType::Poppy => BlockEntry { render_type: RenderType::CrossPlant, dimensions: BlockDimensions::full(), is_transparent: true, texture: TexturePattern::Uniform(18) },
            BlockType::PinkTulip => BlockEntry { render_type: RenderType::CrossPlant, dimensions: BlockDimensions::full(), is_transparent: true, texture: TexturePattern::Uniform(25) },
            BlockType::TorchFlower => BlockEntry { render_type: RenderType::CrossPlant, dimensions: BlockDimensions::full(), is_transparent: true, texture: TexturePattern::Uniform(24) },
            BlockType::ShortGrass => BlockEntry { render_type: RenderType::CrossPlant, dimensions: BlockDimensions::full(), is_transparent: true, texture: TexturePattern::Uniform(19) },
            BlockType::TallGrassTop => BlockEntry { render_type: RenderType::CrossPlant, dimensions: BlockDimensions::full(), is_transparent: true, texture: TexturePattern::Uniform(20) },
            BlockType::TallGrassBottom => BlockEntry { render_type: RenderType::CrossPlant, dimensions: BlockDimensions::full(), is_transparent: true, texture: TexturePattern::Uniform(27) },
            BlockType::TallDryGrass => BlockEntry { render_type: RenderType::CrossPlant, dimensions: BlockDimensions::full(), is_transparent: true, texture: TexturePattern::Uniform(23) },
            BlockType::ShortDryGrass => BlockEntry { render_type: RenderType::CrossPlant, dimensions: BlockDimensions::full(), is_transparent: true, texture: TexturePattern::Uniform(26) },
            BlockType::DeadBush => BlockEntry { render_type: RenderType::CrossPlant, dimensions: BlockDimensions::full(), is_transparent: true, texture: TexturePattern::Uniform(21) },
            BlockType::Fern => BlockEntry { render_type: RenderType::CrossPlant, dimensions: BlockDimensions::full(), is_transparent: true, texture: TexturePattern::Uniform(30) },
            BlockType::LargeFernTop => BlockEntry { render_type: RenderType::CrossPlant, dimensions: BlockDimensions::full(), is_transparent: true, texture: TexturePattern::Uniform(31) },
            BlockType::LargeFernBottom => BlockEntry { render_type: RenderType::CrossPlant, dimensions: BlockDimensions::full(), is_transparent: true, texture: TexturePattern::Uniform(32) },
            BlockType::Cactus => BlockEntry { render_type: RenderType::ScaledCube, dimensions: BlockDimensions { width_pixels: 14, height_pixels: 16, length_pixels: 14 }, is_transparent: true, texture: TexturePattern::Custom([36, 37, 35, 35, 35, 35]) },
            BlockType::CactusFlower => BlockEntry { render_type: RenderType::CrossPlant, dimensions: BlockDimensions::full(), is_transparent: true, texture: TexturePattern::Uniform(38) },
            BlockType::SweetBerryBushStage1 => BlockEntry { render_type: RenderType::CrossPlant, dimensions: BlockDimensions::full(), is_transparent: true, texture: TexturePattern::Uniform(33) },
            BlockType::SweetBerryBushStage2 => BlockEntry { render_type: RenderType::CrossPlant, dimensions: BlockDimensions::full(), is_transparent: true, texture: TexturePattern::Uniform(34) },
            BlockType::Air => BlockEntry { render_type: RenderType::FullCube, dimensions: BlockDimensions::full(), is_transparent: true, texture: TexturePattern::Uniform(0) },
        }
    }

    fn is_scaled(&self) -> (r: bool)
        ensures
            r == is_scaled_kind(*self),
    {
        match self {
            BlockType::SnowLayer => true,
            BlockType::Cactus => true,
            _ => false,
        }
    }

    /// The block registered for this kind.
    pub fn get_block(&self) -> (r: Option<Block>)
        ensures
            r matches Some(b) && b.describes(*self),
    {
        Some(Block::for_type(*self))
    }

    /// How this kind is drawn.
    pub fn get_properties(&self) -> (r: BlockProperties)
        ensures
            r.render_type == kind_render_type(*self),
            r.dimensions == kind_dimensions(*self),
    {
        BlockProperties { render_type: self.get_render_type(), dimensions: self.get_dimensions() }
    }

    /// How this kind is drawn.
    pub fn get_render_type(&self) -> (r: RenderType)
        ensures
            r == kind_render_type(*self),
    {
        self.registered_entry().render_type
    }

    /// The size of this kind.
    pub fn get_dimensions(&self) -> (r: BlockDimensions)
        ensures
            r == kind_dimensions(*self),
    {
        self.registered_entry().dimensions
    }

    /// Whether neighbouring faces stay visible next to this kind.
    pub fn is_transparent(&self) -> (r: bool)
        ensures
            r == is_see_through_kind(*self),
    {
        self.registered_entry().is_transparent
    }

    /// Whether this kind is drawn as a full cube.
    pub fn is_full_block(&self) -> (r: bool)
        ensures
            r == (kind_render_type(*self) == RenderType::FullCube),
    {
        match self.get_render_type() {
            RenderType::FullCube => true,
            _ => false,
        }
    }
}


/// The first kind of `kinds` whose name is `name`.
pub open spec fn first_named(kinds: Seq<BlockType>, name: Seq<char>) -> Option<BlockType>
    decreases kinds.len(),
{
    if kinds.len() == 0 {
        None
    } else if kind_name(kinds[0]) == name {
        Some(kinds[0])
    } else {
        first_named(kinds.drop_first(), name)
    }
}

/// The kind named `name`, if there is one.
pub open spec fn kind_named(name: Seq<char>) -> Option<BlockType> {
    first_named(all_block_types(), name)
}

proof fn lemma_first_named(kinds: Seq<BlockType>, name: Seq<char>)
    ensures
        first_named(kinds, name) matches Some(t) ==> kind_name(t) == name,
        first_named(kinds, name) is None ==> forall|i: int|
            0 <= i < kinds.len() ==> kind_name(#[trigger] kinds[i]) != name,
    decreases kinds.len(),
{
    if kinds.len() > 0 {
        lemma_first_named(kinds.drop_first(), name);
        if first_named(kinds, name) is None {
            assert forall|i: int| 0 <= i < kinds.len() implies kind_name(#[trigger] kinds[i]) != name by {
                if i > 0 {
                    assert(kinds[i] == kinds.drop_first()[i - 1]);
                }
            }
        }
    }
}

/// A kind is found by a name exactly when it has that name.
pub proof fn lemma_kind_named(name: Seq<char>)
    ensures
        kind_named(name) matches Some(t) ==> kind_name(t) == name,
        kind_named(name) is None ==> forall|t: BlockType| kind_name(t) != name,
{
    lemma_first_named(all_block_types(), name);
    if kind_named(name) is None {
        assert forall|t: BlockType| kind_name(t) != name by {
            lemma_type_index(t);
        }
    }
}

/// The kind whose name agrees with `name` in length and in the characters at positions 0,
/// 1, 6 (for names longer than six) and last, if there is one: no two kind names agree on
/// all of these.
spec fn kind_by_signature(name: Seq<char>) -> Option<BlockType> {
    let n = name.len();
    if n == 10 && name[0] == 'G' && name[1] == 'r' && name[9] == 'k' && name[6] == 'l' {
        Some(BlockType::GrassBlock)
    } else if n == 15 && name[0] == 'S' && name[1] == 'n' && name[14] == 'k' && name[6] == 'r' {
        Some(BlockType::SnowyGrassBlock)
    } else if n == 4 && name[0] == 'D' && name[1] == 'i' && name[3] == 't' {
        Some(BlockType::Dirt)
    } else if n == 6 && name[0] == 'P' && name[1] == 'o' && name[5] == 'l' {
        Some(BlockType::Podzol)
    } else if n == 5 && name[0] == 'S' && name[1] == 't' && name[4] == 'e' {
        Some(BlockType::Stone)
    } else if n == 4 && name[0] == 'S' && name[1] == 'a' && name[3] == 'd' {
        Some(BlockType::Sand)
    } else if n == 6 && name[0] == 'O' && name[1] == 'a' && name[5] == 'g' {
        Some(BlockType::OakLog)
    } else if n == 9 && name[0] == 'S' && name[1] == 'p' && name[8] == 'g' && name[6] == 'L' {
        Some(BlockType::SpruceLog)
    } else if n == 8 && name[0] == 'B' && name[1] == 'i' && name[7] == 'g' && name[6] == 'o' {
        Some(BlockType::BirchLog)
    } else if n == 9 && name[0] == 'J' && name[1] == 'u' && name[8] == 'g' && name[6] == 'L' {
        Some(BlockType::JungleLog)
    } else if n == 9 && name[0] == 'O' && name[1] == 'a' && name[8] == 's' && name[6] == 'v' {
        Some(BlockType::OakLeaves)
    } else if n == 12 && name[0] == 'S' && name[1] == 'p' && name[11] == 's' && name[6] == 'L' {
        Some(BlockType::SpruceLeaves)
    } else if n == 11 && name[0] == 'B' && name[1] == 'i' && name[10] == 's' && name[6] == 'e' {
        Some(BlockType::BirchLeaves)
    } else if n == 12 && name[0] == 'J' && name[1] == 'u' && name[11] == 's' && name[6] == 'L' {
        Some(BlockType::JungleLeaves)
    } else if n == 9 && name[0] == 'O' && name[1] == 'a' && name[8] == 's' && name[6] == 'n' {
        Some(BlockType::OakPlanks)
    } else if n == 12 && name[0] == 'S' && name[1] == 'p' && name[11] == 's' && name[6] == 'p' {
        Some(BlockType::Spruceplanks)
    } else if n == 11 && name[0] == 'B' && name[1] == 'i' && name[10] == 's' && name[6] == 'l' {
        Some(BlockType::BirchPlanks)
    } else if n == 12 && name[0] == 'J' && name[1] == 'u' && name[11] == 's' && name[6] == 'P' {
        Some(BlockType::JunglePlanks)
    } else if n == 12 && name[0] == 'A' && name[1] == 'c' && name[11] == 's' && name[6] == 'P' {
        Some(BlockType::AcaciaPlanks)
    } else if n == 13 && name[0] == 'D' && name[1] == 'a' && name[12] == 's' && name[6] == 'k' {
        Some(BlockType::DarkOakPlanks)
    } else if n == 14 && name[0] == 'M' && name[1] == 'a' && name[13] == 's' && name[6] == 'v' {
        Some(BlockType::MangorvePlanks)
    } else if n == 12 && name[0] == 'C' && name[1] == 'h' && name[11] == 's' && name[6] == 'P' {
        Some(BlockType::CherryPlanks)
    } else if n == 12 && name[0] == 'B' && name[1] == 'a' && name[11] == 's' && name[6] == 'P' {
        Some(BlockType::BambooPlanks)
    } else if n == 13 && name[0] == 'C' && name[1] == 'r' && name[12] == 's' && name[6] == 'n' {
        Some(BlockType::CrimsonPlanks)
    } else if n == 12 && name[0] == 'W' && name[1] == 'a' && name[11] == 's' && name[6] == 'P' {
        Some(BlockType::WarpedPlanks)
    } else if n == 13 && name[0] == 'P' && name[1] == 'a' && name[12] == 's' && name[6] == 'k' {
        Some(BlockType::PaleOakPlanks)
    } else if n == 11 && name[0] == 'C' && name[1] == 'o' && name[10] == 'e' && name[6] == 's' {
        Some(BlockType::Cobblestone)
    } else if n == 16 && name[0] == 'M' && name[1] == 'o' && name[15] == 'e' && name[6] == 'o' {
        Some(BlockType::MossyCobblestone)
    } else if n == 11 && name[0] == 'S' && name[1] == 't' && name[10] == 's' && name[6] == 'r' {
        Some(BlockType::StoneBricks)
    } else if n == 19 && name[0] == 'C' && name[1] == 'h' && name[18] == 's' && name[6] == 'e' {
        Some(BlockType::ChiseledStoneBricks)
    } else if n == 16 && name[0] == 'M' && name[1] == 'o' && name[15] == 's' && name[6] == 't' {
        Some(BlockType::MossyStoneBricks)
    } else if n == 11 && name[0] == 'S' && name[1] == 'm' && name[10] == 'e' && name[6] == 'S' {
        Some(BlockType::SmoothStone)
    } else if n == 9 && name[0] == 'S' && name[1] == 'a' && name[8] == 'e' && name[6] == 'o' {
        Some(BlockType::Sandstone)
    } else if n == 17 && name[0] == 'C' && name[1] == 'h' && name[16] == 'e' && name[6] == 'e' {
        Some(BlockType::ChiseledSandstone)
    } else if n == 11 && name[0] == 'C' && name[1] == 'o' && name[10] == 'k' && name[6] == 'B' {
        Some(BlockType::CopperBlock)
    } else if n == 12 && name[0] == 'D' && name[1] == 'i' && name[11] == 'k' && name[6] == 'd' {
        Some(BlockType::DiamondBlock)
    } else if n == 12 && name[0] == 'E' && name[1] == 'm' && name[11] == 'k' && name[6] == 'd' {
        Some(BlockType::EmeraldBlock)
    } else if n == 9 && name[0] == 'G' && name[1] == 'o' && name[8] == 'k' && name[6] == 'o' {
        Some(BlockType::GoldBlock)
    } else if n == 9 && name[0] == 'I' && name[1] == 'r' && name[8] == 'k' && name[6] == 'o' {
        Some(BlockType::IronBlock)
    } else if n == 10 && name[0] == 'L' && name[1] == 'a' && name[9] == 'k' && name[6] == 'l' {
        Some(BlockType::LapisBlock)
    } else if n == 10 && name[0] == 'T' && name[1] == 'e' && name[9] == 'a' && name[6] == 'o' {
        Some(BlockType::Terracotta)
    } else if n == 15 && name[0] == 'B' && name[1] == 'l' && name[14] == 'a' && name[6] == 'e' {
        Some(BlockType::BlackTerracotta)
    } else if n == 14 && name[0] == 'B' && name[1] == 'l' && name[13] == 'a' && name[6] == 'r' {
        Some(BlockType::BlueTerracotta)
    } else if n == 15 && name[0] == 'B' && name[1] == 'r' && name[14] == 'a' && name[6] == 'e' {
        Some(BlockType::BrownTerracotta)
    } else if n == 14 && name[0] == 'C' && name[1] == 'y' && name[13] == 'a' && name[6] == 'r' {
        Some(BlockType::CyanTerracotta)
    } else if n == 14 && name[0] == 'G' && name[1] == 'r' && name[13] == 'a' && name[6] == 'r' {
        Some(BlockType::GrayTerracotta)
    } else if n == 15 && name[0] == 'G' && name[1] == 'r' && name[14] == 'a' && name[6] == 'e' {
        Some(BlockType::GreenTerracotta)
    } else if n == 19 && name[0] == 'L' && name[1] == 'i' && name[18] == 'a' && name[6] == 'l' {
        Some(BlockType::LightBlueTerracotta)
    } else if n == 19 && name[0] == 'L' && name[1] == 'i' && name[18] == 'a' && name[6] == 'r' {
        Some(BlockType::LightGrayTerracotta)
    } else if n == 14 && name[0] == 'L' && name[1] == 'i' && name[13] == 'a' && name[6] == 'r' {
        Some(BlockType::LimeTerracotta)
    } else if n == 17 && name[0] == 'M' && name[1] == 'a' && name[16] == 'a' && name[6] == 'a' {
        Some(BlockType::MagentaTerracotta)
    } else if n == 16 && name[0] == 'O' && name[1] == 'r' && name[15] == 'a' && name[6] == 'T' {
        Some(BlockType::OrangeTerracotta)
    } else if n == 14 && name[0] == 'P' && name[1] == 'i' && name[13] == 'a' && name[6] == 'r' {
        Some(BlockType::PinkTerracotta)
    } else if n == 16 && name[0] == 'P' && name[1] == 'u' && name[15] == 'a' && name[6] == 'T' {
        Some(BlockType::PurpleTerracotta)
    } else if n == 13 && name[0] == 'R' && name[1] == 'e' && name[12] == 'a' && name[6] == 'r' {
        Some(BlockType::RedTerracotta)
    } else if n == 15 && name[0] == 'W' && name[1] == 'h' && name[14] == 'a' && name[6] == 'e' {
        Some(BlockType::WhiteTerracotta)
    } else if n == 16 && name[0] == 'Y' && name[1] == 'e' && name[15] == 'a' && name[6] == 'T' {
        Some(BlockType::YellowTerracotta)
    } else if n == 21 && name[0] == 'B' && name[1] == 'l' && name[20] == 'a' && name[6] == 'l' {
        Some(BlockType::BlackGlazedTerracotta)
    } else if n == 20 && name[0] == 'B' && name[1] == 'l' && name[19] == 'a' && name[6] == 'a' {
        Some(BlockType::BlueGlazedTerracotta)
    } else if n == 21 && name[0] == 'B' && name[1] == 'r' && name[20] == 'a' && name[6] == 'l' {
        Some(BlockType::BrownGlazedTerracotta)
    } else if n == 20 && name[0] == 'C' && name[1] == 'y' && name[19] == 'a' && name[6] == 'a' {
        Some(BlockType::CyanGlazedTerracotta)
    } else if n == 20 && name[0] == 'G' && name[1] == 'r' && name[19] == 'a' && name[6] == 'a' {
        Some(BlockType::GrayGlazedTerracotta)
    } else if n == 21 && name[0] == 'G' && name[1] == 'r' && name[20] == 'a' && name[6] == 'l' {
        Some(BlockType::GreenGlazedTerracotta)
    } else if n == 25 && name[0] == 'L' && name[1] == 'i' && name[24] == 'a' && name[6] == 'l' {
        Some(BlockType::LightBlueGlazedTerracotta)
    } else if n == 25 && name[0] == 'L' && name[1] == 'i' && name[24] == 'a' && name[6] == 'r' {
        Some(BlockType::LightGrayGlazedTerracotta)
    } else if n == 20 && name[0] == 'L' && name[1] == 'i' && name[19] == 'a' && name[6] == 'a' {
        Some(BlockType::LimeGlazedTerracotta)
    } else if n == 23 && name[0] == 'M' && name[1] == 'a' && name[22] == 'a' && name[6] == 'a' {
        Some(BlockType::MagentaGlazedTerracotta)
    } else if n == 22 && name[0] == 'O' && name[1] == 'r' && name[21] == 'a' && name[6] == 'G' {
        Some(BlockType::OrangeGlazedTerracotta)
    } else if n == 20 && name[0] == 'P' && name[1] == 'i' && name[19] == 'a' && name[6] == 'a' {
        Some(BlockType::PinkGlazedTerracotta)
    } else if n == 22 && name[0] == 'P' && name[1] == 'u' && name[21] == 'a' && name[6] == 'G' {
        Some(BlockType::PurpleGlazedTerracotta)
    } else if n == 19 && name[0] == 'R' && name[1] == 'e' && name[18] == 'a' && name[6] == 'z' {
        Some(BlockType::RedGlazedTerracotta)
    } else if n == 21 && name[0] == 'W' && name[1] == 'h' && name[20] == 'a' && name[6] == 'l' {
        Some(BlockType::WhiteGlazedTerracotta)
    } else if n == 22 && name[0] == 'Y' && name[1] == 'e' && name[21] == 'a' && name[6] == 'G' {
        Some(BlockType::YellowGlazedTerracotta)
    } else if n == 5 && name[0] == 'W' && name[1] == 'a' && name[4] == 'r' {
        Some(BlockType::Water)
    } else if n == 4 && name[0] == 'S' && name[1] == 'n' && name[3] == 'w' {
        Some(BlockType::Snow)
    } else if n == 9 && name[0] == 'S' && name[1] == 'n' && name[8] == 'r' && name[6] == 'y' {
        Some(BlockType::SnowLayer)
    } else if n == 13 && name[0] == 'B' && name[1] == 'r' && name[12] == 'm' && name[6] == 'u' {
        Some(BlockType::BrownMushroom)
    } else if n == 11 && name[0] == 'R' && name[1] == 'e' && name[10] == 'm' && name[6] == 'h' {
        Some(BlockType::RedMushroom)
    } else if n == 5 && name[0] == 'P' && name[1] == 'o' && name[4] == 'y' {
        Some(BlockType::Poppy)
    } else if n == 9 && name[0] == 'P' && name[1] == 'i' && name[8] == 'p' && name[6] == 'l' {
        Some(BlockType::PinkTulip)
    } else if n == 11 && name[0] == 'T' && name[1] == 'o' && name[10] == 'r' && name[6] == 'l' {
        Some(BlockType::TorchFlower)
    } else if n == 10 && name[0] == 'S' && name[1] == 'h' && name[9] == 's' && name[6] == 'r' {
        Some(BlockType::ShortGrass)
    } else if n == 12 && name[0] == 'T' && name[1] == 'a' && name[11] == 'p' && name[6] == 'a' {
        Some(BlockType::TallGrassTop)
    } else if n == 15 && name[0] == 'T' && name[1] == 'a' && name[14] == 'm' && name[6] == 'a' {
        Some(BlockType::TallGrassBottom)
    } else if n == 12 && name[0] == 'T' && name[1] == 'a' && name[11] == 's' && name[6] == 'y' {
        Some(BlockType::TallDryGrass)
    } else if n == 13 && name[0] == 'S' && name[1] == 'h' && name[12] == 's' && name[6] == 'r' {
        Some(BlockType::ShortDryGrass)
    } else if n == 8 && name[0] == 'D' && name[1] == 'e' && name[7] == 'h' && name[6] == 's' {
        Some(BlockType::DeadBush)
    } else if n == 4 && name[0] == 'F' && name[1] == 'e' && name[3] == 'n' {
        Some(BlockType::Fern)
    } else if n == 12 && name[0] == 'L' && name[1] == 'a' && name[11] == 'p' && name[6] == 'e' {
        Some(BlockType::LargeFernTop)
    } else if n == 15 && name[0] == 'L' && name[1] == 'a' && name[14] == 'm' && name[6] == 'e' {
        Some(BlockType::LargeFernBottom)
    } else if n == 6 && name[0] == 'C' && name[1] == 'a' && name[5] == 's' {
        Some(BlockType::Cactus)
    } else if n == 12 && name[0] == 'C' && name[1] == 'a' && name[11] == 'r' && name[6] == 'F' {
        Some(BlockType::CactusFlower)
    } else if n == 20 && name[0] == 'S' && name[1] == 'w' && name[19] == '1' && name[6] == 'e' {
        Some(BlockType::SweetBerryBushStage1)
    } else if n == 20 && name[0] == 'S' && name[1] == 'w' && name[19] == '2' && name[6] == 'e' {
        Some(BlockType::SweetBerryBushStage2)
    } else if n == 3 && name[0] == 'A' && name[1] == 'i' && name[2] == 'r' {
        Some(BlockType::Air)
    } else {
        None
    }
}

proof fn lemma_signature_of_name(t: BlockType)
    ensures
        kind_by_signature(kind_name(t)) == Some(t),
{
    match t {
        BlockType::GrassBlock => reveal_strlit("GrassBlock"),
        BlockType::SnowyGrassBlock => reveal_strlit("SnowyGrassBlock"),
        BlockType::Dirt => reveal_strlit("Dirt"),
        BlockType::Podzol => reveal_strlit("Podzol"),
        BlockType::Stone => reveal_strlit("Stone"),
        BlockType::Sand => reveal_strlit("Sand"),
        BlockType::OakLog => reveal_strlit("OakLog"),
        BlockType::SpruceLog => reveal_strlit("SpruceLog"),
        BlockType::BirchLog => reveal_strlit("BirchLog"),
        BlockType::JungleLog => reveal_strlit("JungleLog"),
        BlockType::OakLeaves => reveal_strlit("OakLeaves"),
        BlockType::SpruceLeaves => reveal_strlit("SpruceLeaves"),
        BlockType::BirchLeaves => reveal_strlit("BirchLeaves"),
        BlockType::JungleLeaves => reveal_strlit("JungleLeaves"),
        BlockType::OakPlanks => reveal_strlit("OakPlanks"),
        BlockType::Spruceplanks => reveal_strlit("Spruceplanks"),
        BlockType::BirchPlanks => reveal_strlit("BirchPlanks"),
        BlockType::JunglePlanks => reveal_strlit("JunglePlanks"),
        BlockType::AcaciaPlanks => reveal_strlit("AcaciaPlanks"),
        BlockType::DarkOakPlanks => reveal_strlit("DarkOakPlanks"),
        BlockType::MangorvePlanks => reveal_strlit("MangorvePlanks"),
        BlockType::CherryPlanks => reveal_strlit("CherryPlanks"),
        BlockType::BambooPlanks => reveal_strlit("BambooPlanks"),
        BlockType::CrimsonPlanks => reveal_strlit("CrimsonPlanks"),
        BlockType::WarpedPlanks => reveal_strlit("WarpedPlanks"),
        BlockType::PaleOakPlanks => reveal_strlit("PaleOakPlanks"),
        BlockType::Cobblestone => reveal_strlit("Cobblestone"),
        BlockType::MossyCobblestone => reveal_strlit("MossyCobblestone"),
        BlockType::StoneBricks => reveal_strlit("StoneBricks"),
        BlockType::ChiseledStoneBricks => reveal_strlit("ChiseledStoneBricks"),
        BlockType::MossyStoneBricks => reveal_strlit("MossyStoneBricks"),
        BlockType::SmoothStone => reveal_strlit("SmoothStone"),
        BlockType::Sandstone => reveal_strlit("Sandstone"),
        BlockType::ChiseledSandstone => reveal_strlit("ChiseledSandstone"),
        BlockType::CopperBlock => reveal_strlit("CopperBlock"),
        BlockType::DiamondBlock => reveal_strlit("DiamondBlock"),
        BlockType::EmeraldBlock => reveal_strlit("EmeraldBlock"),
        BlockType::GoldBlock => reveal_strlit("GoldBlock"),
        BlockType::IronBlock => reveal_strlit("IronBlock"),
        BlockType::LapisBlock => reveal_strlit("LapisBlock"),
        BlockType::Terracotta => reveal_strlit("Terracotta"),
        BlockType::BlackTerracotta => reveal_strlit("BlackTerracotta"),
        BlockType::BlueTerracotta => reveal_strlit("BlueTerracotta"),
        BlockType::BrownTerracotta => reveal_strlit("BrownTerracotta"),
        BlockType::CyanTerracotta => reveal_strlit("CyanTerracotta"),
        BlockType::GrayTerracotta => reveal_strlit("GrayTerracotta"),
        BlockType::GreenTerracotta => reveal_strlit("GreenTerracotta"),
        BlockType::LightBlueTerracotta => reveal_strlit("LightBlueTerracotta"),
        BlockType::LightGrayTerracotta => reveal_strlit("LightGrayTerracotta"),
        BlockType::LimeTerracotta => reveal_strlit("LimeTerracotta"),
        BlockType::MagentaTerracotta => reveal_strlit("MagentaTerracotta"),
        BlockType::OrangeTerracotta => reveal_strlit("OrangeTerracotta"),
        BlockType::PinkTerracotta => reveal_strlit("PinkTerracotta"),
        BlockType::PurpleTerracotta => reveal_strlit("PurpleTerracotta"),
        BlockType::RedTerracotta => reveal_strlit("RedTerracotta"),
        BlockType::WhiteTerracotta => reveal_strlit("WhiteTerracotta"),
        BlockType::YellowTerracotta => reveal_strlit("YellowTerracotta"),
        BlockType::BlackGlazedTerracotta => reveal_strlit("BlackGlazedTerracotta"),
        BlockType::BlueGlazedTerracotta => reveal_strlit("BlueGlazedTerracotta"),
        BlockType::BrownGlazedTerracotta => reveal_strlit("BrownGlazedTerracotta"),
        BlockType::CyanGlazedTerracotta => reveal_strlit("CyanGlazedTerracotta"),
        BlockType::GrayGlazedTerracotta => reveal_strlit("GrayGlazedTerracotta"),
        BlockType::GreenGlazedTerracotta => reveal_strlit("GreenGlazedTerracotta"),
        BlockType::LightBlueGlazedTerracotta => reveal_strlit("LightBlueGlazedTerracotta"),
        BlockType::LightGrayGlazedTerracotta => reveal_strlit("LightGrayGlazedTerracotta"),
        BlockType::LimeGlazedTerracotta => reveal_strlit("LimeGlazedTerracotta"),
        BlockType::MagentaGlazedTerracotta => reveal_strlit("MagentaGlazedTerracotta"),
        BlockType::OrangeGlazedTerracotta => reveal_strlit("OrangeGlazedTerracotta"),
        BlockType::PinkGlazedTerracotta => reveal_strlit("PinkGlazedTerracotta"),
        BlockType::PurpleGlazedTerracotta => reveal_strlit("PurpleGlazedTerracotta"),
        BlockType::RedGlazedTerracotta => reveal_strlit("RedGlazedTerracotta"),
        BlockType::WhiteGlazedTerracotta => reveal_strlit("WhiteGlazedTerracotta"),
        BlockType::YellowGlazedTerracotta => reveal_strlit("YellowGlazedTerracotta"),
        BlockType::Water => reveal_strlit("Water"),
        BlockType::Snow => reveal_strlit("Snow"),
        BlockType::SnowLayer => reveal_strlit("SnowLayer"),
        BlockType::BrownMushroom => reveal_strlit("BrownMushroom"),
        BlockType::RedMushroom => reveal_strlit("RedMushroom"),
        BlockType::Poppy => reveal_strlit("Poppy"),
        BlockType::PinkTulip => reveal_strlit("PinkTulip"),
        BlockType::TorchFlower => reveal_strlit("TorchFlower"),
        BlockType::ShortGrass => reveal_strlit("ShortGrass"),
        BlockType::TallGrassTop => reveal_strlit("TallGrassTop"),
        BlockType::TallGrassBottom => reveal_strlit("TallGrassBottom"),
        BlockType::TallDryGrass => reveal_strlit("TallDryGrass"),
        BlockType::ShortDryGrass => reveal_strlit("ShortDryGrass"),
        BlockType::DeadBush => reveal_strlit("DeadBush"),
        BlockType::Fern => reveal_strlit("Fern"),
        BlockType::LargeFernTop => reveal_strlit("LargeFernTop"),
        BlockType::LargeFernBottom => reveal_strlit("LargeFernBottom"),
        BlockType::Cactus => reveal_strlit("Cactus"),
        BlockType::CactusFlower => reveal_strlit("CactusFlower"),
        BlockType::SweetBerryBushStage1 => reveal_strlit("SweetBerryBushStage1"),
        BlockType::SweetBerryBushStage2 => reveal_strlit("SweetBerryBushStage2"),
        BlockType::Air => reveal_strlit("Air"),
    }
}

/// A kind's name is at least three characters long and begins and ends with a letter or digit.
pub proof fn lemma_name_is_plain(t: BlockType)
    ensures
        kind_name(t).len() >= 3,
        crate::lexing::is_whitespace(kind_name(t)[0]) == false,
        crate::lexing::is_whitespace(kind_name(t).last()) == false,
{
    lemma_signature_of_name(t);
}

/// Each kind has a name of its own, and looking a kind's name up gives that kind back.
pub proof fn law_names_identify_kinds(t: BlockType, u: BlockType)
    ensures
        kind_name(t) == kind_name(u) ==> t == u,
        kind_named(kind_name(t)) == Some(t),
{
    lemma_signature_of_name(t);
    lemma_signature_of_name(u);
    lemma_kind_named(kind_name(t));
    if let Some(v) = kind_named(kind_name(t)) {
        lemma_signature_of_name(v);
    }
}

impl BlockType {
    /// The kind whose name is the characters `name`.
    pub fn from_chars(name: &Vec<char>) -> (r: Option<BlockType>)
        ensures
            r == kind_named(name@),
    {
        let kinds = BlockType::all();
        let n = kinds.len();
        proof {
            lemma_all_block_types();
            assert(all_block_types().skip(0) =~= all_block_types());
        }
        for i in 0..n
            invariant
                n == BLOCK_TYPE_COUNT,
                kinds@ == all_block_types(),
                kind_named(name@) == first_named(all_block_types().skip(i as int), name@),
        {
            assert(all_block_types().skip(i as int).drop_first() =~= all_block_types().skip(i + 1));
            let candidate = crate::lexing::str_chars(kinds[i].name());
            if crate::lexing::chars_equal(&candidate, name) {
                return Some(kinds[i]);
            }
        }
        None
    }

    /// The kind whose name is `name`.
    pub fn from_name(name: &str) -> (r: Option<BlockType>)
        ensures
            r == kind_named(name@),
    {
        BlockType::from_chars(&crate::lexing::str_chars(name))
    }
}


/// How the faces of a block kind are textured. Every kind shows one tile on all four sides.
/// The grass block, snowy grass and podzol show the dirt tile underneath, with a top and sides
/// of their own; logs show their end grain on top and bottom and bark around; and only these,
/// the two sandstones and the cactus show another tile on top than on their sides.
pub proof fn law_block_faces(b: BlockType)
    ensures
        ({
            let p = kind_texture(b);
            let top = pattern_texture(p, FaceDirection::Top);
            let bottom = pattern_texture(p, FaceDirection::Bottom);
            let side = pattern_texture(p, FaceDirection::Front);
            let dirt = pattern_texture(kind_texture(BlockType::Dirt), FaceDirection::Top);
            &&& pattern_texture(p, FaceDirection::Back) == side
            &&& pattern_texture(p, FaceDirection::Right) == side
            &&& pattern_texture(p, FaceDirection::Left) == side
            &&& (b == BlockType::GrassBlock || b == BlockType::SnowyGrassBlock || b == BlockType::Podzol) ==> {
                &&& bottom == dirt
                &&& top != dirt
                &&& side != dirt
                &&& top != side
            }
            &&& (b == BlockType::OakLog || b == BlockType::SpruceLog || b == BlockType::BirchLog
                || b == BlockType::JungleLog) ==> top == bottom && top != side
            &&& top != side ==> (b == BlockType::GrassBlock || b == BlockType::SnowyGrassBlock
                || b == BlockType::Podzol || b == BlockType::OakLog || b == BlockType::SpruceLog
                || b == BlockType::BirchLog || b == BlockType::JungleLog || b == BlockType::Sandstone
                || b == BlockType::ChiseledSandstone || b == BlockType::Cactus)
        }),
{
}

}
