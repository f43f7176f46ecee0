//! The multi-table orchestrator: meta-table shape and contents, catalog
//! registration under the fixed names, conflicts on re-registration, and the
//! catalog itself.

use datafusion_tpch::args::TpchError;
use datafusion_tpch::catalog::Catalog;
use datafusion_tpch::orchestrator::{tpch_table_names, utf8_values, TpchGenerators, TpchTables};
use datafusion_tpch::relations::nation_table;
use tpchgen::generators::{
    CustomerGenerator, LineItemGenerator, NationGenerator, OrderGenerator, PartGenerator,
    PartSuppGenerator, RegionGenerator, SupplierGenerator,
};

fn generators(sf: f64) -> TpchGenerators {
    TpchGenerators {
        nation: NationGenerator::new(sf, 1, 1),
        customer: CustomerGenerator::new(sf, 1, 1),
        orders: OrderGenerator::new(sf, 1, 1),
        lineitem: LineItemGenerator::new(sf, 1, 1),
        part: PartGenerator::new(sf, 1, 1),
        partsupp: PartSuppGenerator::new(sf, 1, 1),
        supplier: SupplierGenerator::new(sf, 1, 1),
        region: RegionGenerator::new(sf, 1, 1),
    }
}

#[test]
fn orchestrator_meta_table_shape_and_names() {
    let mut tables = TpchTables::new(Catalog::new());
    let meta = tables.run_in_memory(generators(0.05)).unwrap();
    assert_eq!(meta.num_rows(), 8);
    assert_eq!(meta.num_columns(), 1);
    let values = utf8_values(meta.scan_batch()).unwrap();
    let names = tpch_table_names();
    assert_eq!(values, names);
    assert_eq!(
        names,
        vec![
            "tpch_nation",
            "tpch_customer",
            "tpch_orders",
            "tpch_lineitem",
            "tpch_part",
            "tpch_partsupp",
            "tpch_supplier",
            "tpch_region",
        ]
    );
    assert_eq!(tables.catalog.len(), 8);
    for name in names {
        assert!(tables.catalog.table_exist(&name));
    }
}

#[test]
fn orchestrator_rerun_conflicts_and_keeps_catalog() {
    let mut tables = TpchTables::new(Catalog::new());
    tables.run_in_memory(generators(0.01)).unwrap();
    let second = tables.run_in_memory(generators(0.01));
    assert!(matches!(second, Err(TpchError::Collaborator(_))));
    assert_eq!(tables.catalog.len(), 8);
}

#[test]
fn orchestrator_aborts_midway_and_keeps_registered_prefix() {
    // A name taken before the run makes the third registration conflict; the
    // run aborts there and the tables registered before it stay registered.
    let mut tables = TpchTables::new(Catalog::new());
    let blocker = nation_table(NationGenerator::new(0.01, 1, 1)).unwrap();
    tables.catalog.register("tpch_orders".to_string(), blocker).unwrap();
    let r = tables.run_in_memory(generators(0.01));
    assert!(matches!(r, Err(TpchError::Collaborator(_))));
    assert_eq!(tables.catalog.len(), 3);
    assert!(tables.catalog.table_exist(&"tpch_nation".to_string()));
    assert!(tables.catalog.table_exist(&"tpch_customer".to_string()));
    assert!(!tables.catalog.table_exist(&"tpch_lineitem".to_string()));
}

#[test]
fn catalog_register_and_lookup() {
    let mut catalog = Catalog::new();
    assert_eq!(catalog.len(), 0);
    let name = "tpch_nation".to_string();
    assert!(!catalog.table_exist(&name));
    assert!(catalog.lookup(&name).is_none());

    let provider = nation_table(NationGenerator::new(1.0, 1, 1)).unwrap();
    catalog.register(name.clone(), provider).unwrap();
    assert_eq!(catalog.len(), 1);
    assert!(catalog.table_exist(&name));
    let found = catalog.lookup(&name).unwrap();
    assert_eq!(found.num_rows(), 25);
    assert_eq!(found.num_columns(), 4);

    let duplicate = nation_table(NationGenerator::new(1.0, 1, 1)).unwrap();
    let r = catalog.register(name.clone(), duplicate);
    assert!(matches!(r, Err(TpchError::Collaborator(_))));
    assert_eq!(catalog.len(), 1);

    assert!(catalog.lookup(&"tpch_region".to_string()).is_none());
}
