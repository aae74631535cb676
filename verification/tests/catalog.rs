use tsi::cli::commands::engine_shown;
use tsi::cli::{EnginesArgs, OutputFormat};
use tsi::engine::database::{distance, edit_distance, holds, score_of, starts_with};
use tsi::engine::text::characters;
use tsi::engine::{Engine, EngineDatabase, Propellant};
use tsi::units::{Force, Isp, Mass, Scalar};

fn s(x: f64) -> Scalar {
    Scalar::from_bits(x.to_bits())
}

fn engine(name: &str, sl_kn: f64, vac_kn: f64, isp_sl: f64, isp_vac: f64, kg: f64, p: Propellant) -> Engine {
    Engine::new(
        name,
        Force::newtons(s(sl_kn * 1000.0)),
        Force::newtons(s(vac_kn * 1000.0)),
        Isp::seconds(s(isp_sl)),
        Isp::seconds(s(isp_vac)),
        Mass::kg(s(kg)),
        p,
    )
}

fn catalog() -> EngineDatabase {
    EngineDatabase::new(vec![
        engine("Merlin-1D", 845.0, 914.0, 282.0, 311.0, 470.0, Propellant::LoxRp1),
        engine("Merlin-Vacuum", 0.0, 981.0, 0.0, 348.0, 490.0, Propellant::LoxRp1),
        engine("Raptor-2", 2300.0, 2450.0, 327.0, 350.0, 1600.0, Propellant::LoxCh4),
        engine("Raptor-Vacuum", 0.0, 2550.0, 0.0, 380.0, 1600.0, Propellant::LoxCh4),
        engine("RS-25", 1860.0, 2279.0, 366.0, 452.0, 3527.0, Propellant::LoxLh2),
        engine("RL-10C", 0.0, 106.0, 0.0, 453.0, 190.0, Propellant::LoxLh2),
        engine("F-1", 6770.0, 7770.0, 263.0, 304.0, 8400.0, Propellant::LoxRp1),
        engine("J-2", 0.0, 1033.0, 0.0, 421.0, 1788.0, Propellant::LoxLh2),
        engine("RD-180", 3830.0, 4152.0, 311.0, 338.0, 5480.0, Propellant::LoxRp1),
        engine("Rutherford", 25.0, 26.0, 311.0, 343.0, 35.0, Propellant::LoxRp1),
        engine("BE-4", 2400.0, 2600.0, 310.0, 340.0, 2000.0, Propellant::LoxCh4),
        engine("Vinci", 0.0, 180.0, 0.0, 457.0, 550.0, Propellant::LoxLh2),
    ])
}

fn chars(text: &str) -> Vec<char> {
    text.chars().collect()
}

#[test]
fn get_engine_by_name() {
    let db = catalog();
    let merlin = db.get("Merlin-1D").unwrap();
    assert_eq!(merlin.name, "Merlin-1D");
    let raptor = db.get("raptor-2").unwrap();
    assert_eq!(raptor.name, "Raptor-2");
}

#[test]
fn get_unknown_engine() {
    let db = catalog();
    assert!(db.get("NotARealEngine").is_none());
}

#[test]
fn get_returns_the_first_match() {
    let db = EngineDatabase::new(vec![
        engine("Alpha", 1.0, 2.0, 1.0, 2.0, 1.0, Propellant::Solid),
        engine("ALPHA", 3.0, 4.0, 3.0, 4.0, 2.0, Propellant::Solid),
    ]);
    assert_eq!(db.get("alpha").unwrap().name, "Alpha");
    assert_eq!(db.get("ALPHA").unwrap().name, "Alpha");
}

#[test]
fn list_engines() {
    let db = catalog();
    let engines = db.list();
    assert!(engines.len() >= 10);
    let names = db.names();
    assert!(names.contains(&"Merlin-1D"));
    assert!(names.contains(&"Raptor-2"));
    assert!(names.contains(&"RS-25"));
    assert_eq!(names.len(), engines.len());
    assert_eq!(names[0], "Merlin-1D");
}

#[test]
fn suggest_similar_names() {
    let db = catalog();

    let suggestions = db.suggest("raptor");
    assert!(suggestions.contains(&"Raptor-2"));
    assert!(suggestions.contains(&"Raptor-Vacuum"));

    let suggestions = db.suggest("merlin");
    assert!(suggestions.contains(&"Merlin-1D"));
    assert!(suggestions.contains(&"Merlin-Vacuum"));

    let suggestions = db.suggest("rapter-2");
    assert!(suggestions.contains(&"Raptor-2"));
}

#[test]
fn suggest_orders_by_score_then_catalog() {
    let db = catalog();
    // prefix matches both score 0 and come in catalog order
    assert_eq!(db.suggest("raptor"), vec!["Raptor-2", "Raptor-Vacuum"]);
    assert_eq!(db.suggestions("raptor"), vec![2, 3]);
    // substring (score 1) comes behind nothing better here
    assert_eq!(db.suggest("vacuum"), vec!["Merlin-Vacuum", "Raptor-Vacuum"]);
    // the query is longer than the name it starts with: score 2
    assert_eq!(db.suggest("rs-25-block2"), vec!["RS-25"]);
    // one letter off: distance 1, score 4
    assert_eq!(db.suggest("rapter-2")[0], "Raptor-2");
    // nothing within reach
    assert!(db.suggest("completely-unrelated-engine-name").is_empty());
}

#[test]
fn suggest_gives_at_most_three() {
    let db = EngineDatabase::new(vec![
        engine("ab1", 1.0, 1.0, 1.0, 1.0, 1.0, Propellant::Solid),
        engine("ab2", 1.0, 1.0, 1.0, 1.0, 1.0, Propellant::Solid),
        engine("xab", 1.0, 1.0, 1.0, 1.0, 1.0, Propellant::Solid),
        engine("ab3", 1.0, 1.0, 1.0, 1.0, 1.0, Propellant::Solid),
        engine("ab4", 1.0, 1.0, 1.0, 1.0, 1.0, Propellant::Solid),
    ]);
    assert_eq!(db.suggest("ab"), vec!["ab1", "ab2", "ab3"]);
    assert_eq!(db.suggest("xa"), vec!["xab", "ab1", "ab2"]);
    let empty = EngineDatabase::new(vec![]);
    assert!(empty.suggest("ab").is_empty());
}

#[test]
fn edit_distance_known_values() {
    assert_eq!(edit_distance("", ""), 0);
    assert_eq!(edit_distance("", "abc"), 3);
    assert_eq!(edit_distance("abc", ""), 3);
    assert_eq!(edit_distance("kitten", "sitting"), 3);
    assert_eq!(edit_distance("flaw", "lawn"), 2);
    assert_eq!(edit_distance("raptor", "rapter"), 1);
    assert_eq!(edit_distance("abc", "abc"), 0);
    assert_eq!(edit_distance("abc", "xyz"), 3);
    assert_eq!(edit_distance("a", "b"), 1);
    assert_eq!(edit_distance("sunday", "saturday"), 3);
    assert_eq!(edit_distance("über", "uber"), 1);
    assert_eq!(distance(&chars("intention"), &chars("execution")), 5);
}

#[test]
fn edit_distance_is_symmetric_and_bounded() {
    let words = ["", "a", "merlin", "raptor-2", "rs-25", "vinci", "raptor-vacuum"];
    for a in words {
        for b in words {
            let d = edit_distance(a, b);
            assert_eq!(d, edit_distance(b, a));
            assert!(d <= a.chars().count().max(b.chars().count()));
            assert_eq!(d == 0, a == b);
        }
    }
}

#[test]
fn text_helpers() {
    assert_eq!(characters("Ra-2"), vec!['R', 'a', '-', '2']);
    assert_eq!(characters(""), Vec::<char>::new());
    assert_eq!(characters("é✓"), vec!['é', '✓']);
    assert!(starts_with(&chars("raptor-2"), &chars("rap")));
    assert!(starts_with(&chars("raptor-2"), &chars("")));
    assert!(starts_with(&chars("rap"), &chars("rap")));
    assert!(!starts_with(&chars("rap"), &chars("raptor")));
    assert!(!starts_with(&chars("raptor"), &chars("apt")));
    assert!(holds(&chars("raptor"), &chars("apt")));
    assert!(holds(&chars("raptor"), &chars("")));
    assert!(holds(&chars("raptor"), &chars("raptor")));
    assert!(holds(&chars("raptor"), &chars("tor")));
    assert!(!holds(&chars("raptor"), &chars("tora")));
    assert!(!holds(&chars("rap"), &chars("raptor")));
    assert!(!holds(&chars("aab"), &chars("abb")));
    assert!(holds(&chars("aaab"), &chars("aab")));
}

#[test]
fn scores_follow_the_four_rules() {
    assert_eq!(score_of(&chars("rap"), &chars("raptor-2")), 0);
    assert_eq!(score_of(&chars("tor"), &chars("raptor-2")), 1);
    assert_eq!(score_of(&chars("raptor-2-sl"), &chars("raptor-2")), 2);
    assert_eq!(score_of(&chars("rapter-2"), &chars("raptor-2")), 4);
    assert_eq!(score_of(&chars("xyz"), &chars("abc")), 6);
    assert_eq!(score_of(&chars("wxyz"), &chars("abc")), 7);
}

#[test]
fn propellant_names() {
    assert_eq!(Propellant::LoxLh2.name(), "LOX/LH2");
    assert_eq!(Propellant::N2o4Udmh.name(), "N2O4/UDMH");
    assert_eq!(Propellant::Solid.name(), "Solid");
}

#[test]
fn propellant_all_lists_every_variant() {
    assert_eq!(
        Propellant::all(),
        vec![
            Propellant::LoxRp1,
            Propellant::LoxLh2,
            Propellant::LoxCh4,
            Propellant::N2o4Udmh,
            Propellant::Solid,
        ]
    );
}

#[test]
fn propellant_matches_names_and_aliases() {
    assert!(Propellant::LoxCh4.matches("methane"));
    assert!(Propellant::LoxCh4.matches("  Methane "));
    assert!(Propellant::LoxCh4.matches("LOXCH4"));
    assert!(Propellant::LoxCh4.matches("LOX/CH4"));
    assert!(Propellant::LoxCh4.matches("methalox"));
    assert!(Propellant::LoxCh4.matches("ch4"));
    assert!(!Propellant::LoxCh4.matches("kerosene"));
    assert!(!Propellant::LoxCh4.matches(""));
    assert!(Propellant::LoxRp1.matches("kerosene"));
    assert!(Propellant::LoxRp1.matches("RP-1"));
    assert!(Propellant::LoxRp1.matches("rp1"));
    assert!(Propellant::LoxRp1.matches("lox/rp1"));
    assert!(Propellant::LoxRp1.matches("LOX/RP-1"));
    assert!(Propellant::LoxRp1.matches("LoxRp1"));
    assert!(Propellant::LoxLh2.matches("hydrogen"));
    assert!(Propellant::LoxLh2.matches("hydrolox"));
    assert!(Propellant::LoxLh2.matches("lh2"));
    assert!(Propellant::LoxLh2.matches("lox/lh2"));
    assert!(Propellant::N2o4Udmh.matches("hypergolic"));
    assert!(Propellant::N2o4Udmh.matches("N2O4/UDMH"));
    assert!(Propellant::N2o4Udmh.matches("udmh"));
    assert!(Propellant::N2o4Udmh.matches("n2o4"));
    assert!(Propellant::Solid.matches("SRB"));
    assert!(Propellant::Solid.matches("solid"));
    assert!(!Propellant::Solid.matches("liquid"));
    for p in Propellant::all() {
        assert!(p.matches(p.name()));
        for q in Propellant::all() {
            assert_eq!(p.matches(q.name()), p == q);
        }
    }
}

#[test]
fn propellant_matches_normalized_is_exact() {
    assert!(Propellant::LoxCh4.matches_normalized("methane"));
    assert!(!Propellant::LoxCh4.matches_normalized("Methane"));
    assert!(!Propellant::LoxCh4.matches_normalized(" methane"));
}

#[test]
fn engines_listing_filters() {
    let db = catalog();
    let all = EnginesArgs { output: OutputFormat::Table, propellant: None, name: None, verbose: false };
    assert!(db.list().iter().all(|e| engine_shown(e, &all)));
    let methane = EnginesArgs {
        output: OutputFormat::Table,
        propellant: Some("Methane".to_string()),
        name: None,
        verbose: false,
    };
    let shown: Vec<&str> =
        db.list().iter().filter(|e| engine_shown(e, &methane)).map(|e| e.name.as_str()).collect();
    assert_eq!(shown, vec!["Raptor-2", "Raptor-Vacuum", "BE-4"]);
    let raptors = EnginesArgs {
        output: OutputFormat::Json,
        propellant: Some("methane".to_string()),
        name: Some("RAPTOR".to_string()),
        verbose: true,
    };
    let shown: Vec<&str> =
        db.list().iter().filter(|e| engine_shown(e, &raptors)).map(|e| e.name.as_str()).collect();
    assert_eq!(shown, vec!["Raptor-2", "Raptor-Vacuum"]);
    let vacuum = EnginesArgs {
        output: OutputFormat::Table,
        propellant: None,
        name: Some("vacuum".to_string()),
        verbose: false,
    };
    let shown: Vec<&str> =
        db.list().iter().filter(|e| engine_shown(e, &vacuum)).map(|e| e.name.as_str()).collect();
    assert_eq!(shown, vec!["Merlin-Vacuum", "Raptor-Vacuum"]);
}
