use esm_facade::chunking::{ChunkingContext, EcmascriptChunkingContext};
use esm_facade::error::FacadeError;
use esm_facade::exports::{EcmascriptExports, EsmExport, EsmExports};
use esm_facade::facade::EcmascriptModuleFacadeModule;
use esm_facade::module::{AssetIdent, EcmascriptModule, ModuleAnalysis};
use esm_facade::part::ModulePart;
use esm_facade::reference::ModulePartReference;

fn esm_module(ident: u64, exports: Vec<(String, EsmExport)>) -> EcmascriptModule {
    EcmascriptModule {
        ident,
        analysis: Some(ModuleAnalysis {
            evaluation_references: Vec::new(),
            reexport_references: Vec::new(),
        }),
        exports: EcmascriptExports::EsmExports(EsmExports {
            exports,
            star_exports: Vec::new(),
        }),
        side_effect_free: false,
        async_module: None,
    }
}

fn scenario_module(ident: u64) -> EcmascriptModule {
    esm_module(
        ident,
        vec![
            (
                "default".to_string(),
                EsmExport::LocalBinding("a".to_string()),
            ),
            ("foo".to_string(), EsmExport::LocalBinding("b".to_string())),
        ],
    )
}

fn locals_reference(module: u64) -> ModulePartReference {
    ModulePartReference::Part {
        module,
        part: ModulePart::Locals,
    }
}

fn exports_reference(module: u64) -> ModulePartReference {
    ModulePartReference::Part {
        module,
        part: ModulePart::Exports,
    }
}

fn all_parts() -> Vec<ModulePart> {
    vec![
        ModulePart::Evaluation,
        ModulePart::Exports,
        ModulePart::Locals,
        ModulePart::Facade,
        ModulePart::RenamedExport {
            original_export: "x".to_string(),
            export: "y".to_string(),
        },
        ModulePart::RenamedNamespace {
            export: "n".to_string(),
        },
    ]
}

#[test]
fn identity_distinct_for_distinct_parts() {
    let idents: Vec<AssetIdent> = all_parts()
        .into_iter()
        .map(|part| EcmascriptModuleFacadeModule::new(scenario_module(1), part).ident())
        .collect();
    for i in 0..idents.len() {
        for j in 0..idents.len() {
            if i != j {
                assert_ne!(idents[i], idents[j]);
            }
        }
    }
}

#[test]
fn identity_tags_module_and_part() {
    let facade = EcmascriptModuleFacadeModule::new(scenario_module(42), ModulePart::Facade);
    assert_eq!(
        facade.ident(),
        AssetIdent {
            module: 42,
            part: ModulePart::Facade
        }
    );
}

#[test]
fn exports_part_rewrites_local_bindings() {
    let facade = EcmascriptModuleFacadeModule::new(scenario_module(3), ModulePart::Exports);
    let table = match facade.get_exports() {
        Ok(EcmascriptExports::EsmExports(table)) => table,
        other => panic!("expected an ESM export table, got {:?}", other),
    };
    assert_eq!(
        table.exports,
        vec![
            (
                "default".to_string(),
                EsmExport::ImportedBinding(locals_reference(3), "a".to_string()),
            ),
            (
                "foo".to_string(),
                EsmExport::ImportedBinding(locals_reference(3), "b".to_string()),
            ),
        ]
    );
    assert!(table.star_exports.is_empty());
    assert!(!table
        .exports
        .iter()
        .any(|(_, export)| matches!(export, EsmExport::LocalBinding(_))));
}

#[test]
fn exports_part_passes_other_descriptors_through() {
    let module = esm_module(
        9,
        vec![
            (
                "ns".to_string(),
                EsmExport::ImportedNamespace(ModulePartReference::Entire { module: 5 }),
            ),
            (
                "b".to_string(),
                EsmExport::ImportedBinding(
                    ModulePartReference::Entire { module: 6 },
                    "orig".to_string(),
                ),
            ),
            ("broken".to_string(), EsmExport::Error),
        ],
    );
    let module = EcmascriptModule {
        exports: match module.exports {
            EcmascriptExports::EsmExports(table) => EcmascriptExports::EsmExports(EsmExports {
                star_exports: vec![ModulePartReference::Entire { module: 11 }],
                ..table
            }),
            other => other,
        },
        ..module
    };
    let facade = EcmascriptModuleFacadeModule::new(module, ModulePart::Exports);
    let table = match facade.get_exports() {
        Ok(EcmascriptExports::EsmExports(table)) => table,
        other => panic!("expected an ESM export table, got {:?}", other),
    };
    assert_eq!(
        table.exports,
        vec![
            (
                "ns".to_string(),
                EsmExport::ImportedNamespace(ModulePartReference::Entire { module: 5 }),
            ),
            (
                "b".to_string(),
                EsmExport::ImportedBinding(
                    ModulePartReference::Entire { module: 6 },
                    "orig".to_string(),
                ),
            ),
            ("broken".to_string(), EsmExport::Error),
        ]
    );
    assert_eq!(
        table.star_exports,
        vec![ModulePartReference::Entire { module: 11 }]
    );
}

#[test]
fn evaluation_exports_are_empty() {
    let facade = EcmascriptModuleFacadeModule::new(scenario_module(4), ModulePart::Evaluation);
    let table = match facade.get_exports() {
        Ok(EcmascriptExports::EsmExports(table)) => table,
        other => panic!("expected an ESM export table, got {:?}", other),
    };
    assert!(table.exports.is_empty());
    assert!(table.star_exports.is_empty());
}

#[test]
fn facade_part_reexports_default() {
    let facade = EcmascriptModuleFacadeModule::new(scenario_module(3), ModulePart::Facade);
    let table = match facade.get_exports() {
        Ok(EcmascriptExports::EsmExports(table)) => table,
        other => panic!("expected an ESM export table, got {:?}", other),
    };
    assert_eq!(
        table.exports,
        vec![(
            "default".to_string(),
            EsmExport::ImportedBinding(exports_reference(3), "default".to_string()),
        )]
    );
    assert_eq!(table.star_exports, vec![exports_reference(3)]);
}

#[test]
fn facade_part_without_default_entry() {
    let module = esm_module(
        8,
        vec![("foo".to_string(), EsmExport::LocalBinding("b".to_string()))],
    );
    let facade = EcmascriptModuleFacadeModule::new(module, ModulePart::Facade);
    let table = match facade.get_exports() {
        Ok(EcmascriptExports::EsmExports(table)) => table,
        other => panic!("expected an ESM export table, got {:?}", other),
    };
    assert!(table.exports.is_empty());
    assert_eq!(table.star_exports, vec![exports_reference(8)]);
}

#[test]
fn renamed_export_single_entry() {
    let facade = EcmascriptModuleFacadeModule::new(
        scenario_module(12),
        ModulePart::RenamedExport {
            original_export: "x".to_string(),
            export: "y".to_string(),
        },
    );
    let table = match facade.get_exports() {
        Ok(EcmascriptExports::EsmExports(table)) => table,
        other => panic!("expected an ESM export table, got {:?}", other),
    };
    assert_eq!(
        table.exports,
        vec![(
            "y".to_string(),
            EsmExport::ImportedBinding(
                ModulePartReference::Entire { module: 12 },
                "x".to_string(),
            ),
        )]
    );
    assert!(table.star_exports.is_empty());
}

#[test]
fn renamed_namespace_single_entry() {
    let facade = EcmascriptModuleFacadeModule::new(
        scenario_module(13),
        ModulePart::RenamedNamespace {
            export: "n".to_string(),
        },
    );
    let table = match facade.get_exports() {
        Ok(EcmascriptExports::EsmExports(table)) => table,
        other => panic!("expected an ESM export table, got {:?}", other),
    };
    assert_eq!(
        table.exports,
        vec![(
            "n".to_string(),
            EsmExport::ImportedNamespace(ModulePartReference::Entire { module: 13 }),
        )]
    );
    assert!(table.star_exports.is_empty());
}

#[test]
fn get_exports_rejects_locals() {
    let facade = EcmascriptModuleFacadeModule::new(scenario_module(2), ModulePart::Locals);
    assert_eq!(facade.get_exports(), Err(FacadeError::InvalidPart));
}

#[test]
fn get_exports_requires_esm_shape() {
    for part in [ModulePart::Exports, ModulePart::Facade] {
        let module = EcmascriptModule {
            exports: EcmascriptExports::NonEsm,
            ..scenario_module(5)
        };
        let facade = EcmascriptModuleFacadeModule::new(module, part);
        assert_eq!(facade.get_exports(), Err(FacadeError::ExportShapeMismatch));
    }
}

#[test]
fn references_locals_is_invalid_part() {
    let facade = EcmascriptModuleFacadeModule::new(scenario_module(2), ModulePart::Locals);
    assert_eq!(facade.references(), Err(FacadeError::InvalidPart));
}

#[test]
fn facade_references_evaluation_and_exports() {
    let plain = scenario_module(21);
    let mut busy = scenario_module(21);
    busy.analysis = Some(ModuleAnalysis {
        evaluation_references: vec![ModulePartReference::Entire { module: 90 }],
        reexport_references: vec![ModulePartReference::Entire { module: 91 }],
    });
    for module in [plain, busy] {
        let facade = EcmascriptModuleFacadeModule::new(module, ModulePart::Facade);
        assert_eq!(
            facade.references(),
            Ok(vec![
                ModulePartReference::Part {
                    module: 21,
                    part: ModulePart::Evaluation,
                },
                exports_reference(21),
            ])
        );
    }
}

#[test]
fn evaluation_references_append_locals() {
    let mut module = scenario_module(30);
    module.analysis = Some(ModuleAnalysis {
        evaluation_references: vec![ModulePartReference::Entire { module: 77 }],
        reexport_references: vec![ModulePartReference::Entire { module: 78 }],
    });
    let facade = EcmascriptModuleFacadeModule::new(module, ModulePart::Evaluation);
    assert_eq!(
        facade.references(),
        Ok(vec![
            ModulePartReference::Entire { module: 77 },
            locals_reference(30),
        ])
    );
}

#[test]
fn exports_references_append_locals() {
    let mut module = scenario_module(31);
    module.analysis = Some(ModuleAnalysis {
        evaluation_references: vec![ModulePartReference::Entire { module: 77 }],
        reexport_references: vec![ModulePartReference::Entire { module: 78 }],
    });
    let facade = EcmascriptModuleFacadeModule::new(module, ModulePart::Exports);
    assert_eq!(
        facade.references(),
        Ok(vec![
            ModulePartReference::Entire { module: 78 },
            locals_reference(31),
        ])
    );
}

#[test]
fn references_require_analysis() {
    for part in [ModulePart::Evaluation, ModulePart::Exports] {
        let mut module = scenario_module(6);
        module.analysis = None;
        let facade = EcmascriptModuleFacadeModule::new(module, part);
        assert_eq!(
            facade.references(),
            Err(FacadeError::AnalysisTypeMismatch)
        );
    }
}

#[test]
fn renamed_parts_reference_whole_module() {
    let parts = vec![
        ModulePart::RenamedExport {
            original_export: "x".to_string(),
            export: "y".to_string(),
        },
        ModulePart::RenamedNamespace {
            export: "n".to_string(),
        },
    ];
    for part in parts {
        let facade = EcmascriptModuleFacadeModule::new(scenario_module(15), part);
        assert_eq!(
            facade.references(),
            Ok(vec![ModulePartReference::Entire { module: 15 }])
        );
    }
}

#[test]
fn side_effect_classification() {
    for side_effect_free in [false, true] {
        for (part, expected) in [
            (ModulePart::Evaluation, side_effect_free),
            (ModulePart::Facade, side_effect_free),
            (ModulePart::Exports, true),
            (
                ModulePart::RenamedExport {
                    original_export: "x".to_string(),
                    export: "y".to_string(),
                },
                true,
            ),
            (
                ModulePart::RenamedNamespace {
                    export: "n".to_string(),
                },
                true,
            ),
        ] {
            let module = EcmascriptModule {
                side_effect_free,
                exports: EcmascriptExports::NonEsm,
                ..scenario_module(7)
            };
            let facade = EcmascriptModuleFacadeModule::new(module, part);
            assert_eq!(facade.is_marked_as_side_effect_free(), Ok(expected));
        }
    }
}

#[test]
fn side_effect_classification_rejects_locals() {
    let facade = EcmascriptModuleFacadeModule::new(scenario_module(7), ModulePart::Locals);
    assert_eq!(
        facade.is_marked_as_side_effect_free(),
        Err(FacadeError::InvalidPart)
    );
}

#[test]
fn async_module_passes_through() {
    for (async_module, part) in [
        (None, ModulePart::Evaluation),
        (Some(99), ModulePart::Locals),
    ] {
        let module = EcmascriptModule {
            async_module,
            ..scenario_module(16)
        };
        let facade = EcmascriptModuleFacadeModule::new(module, part);
        assert_eq!(facade.get_async_module(), async_module);
    }
}

#[test]
fn content_always_fails() {
    let facade = EcmascriptModuleFacadeModule::new(scenario_module(17), ModulePart::Facade);
    assert_eq!(
        facade.content(),
        Err(FacadeError::UnreachableContentAccess)
    );
}

#[test]
fn as_chunk_item_requires_ecmascript_chunking() {
    let facade = EcmascriptModuleFacadeModule::new(scenario_module(18), ModulePart::Facade);
    let capable = ChunkingContext {
        ident: 5,
        supports_ecmascript: true,
    };
    let item = facade
        .as_chunk_item(&capable)
        .expect("an ECMAScript-capable context must yield a chunk item");
    assert_eq!(
        item.module,
        AssetIdent {
            module: 18,
            part: ModulePart::Facade
        }
    );
    assert_eq!(item.chunking_context, EcmascriptChunkingContext { ident: 5 });

    let incapable = ChunkingContext {
        ident: 5,
        supports_ecmascript: false,
    };
    assert_eq!(
        facade.as_chunk_item(&incapable),
        Err(FacadeError::CapabilityMissing)
    );
}

#[test]
fn error_messages_name_the_failure() {
    assert_eq!(
        FacadeError::AnalysisTypeMismatch.message(),
        "expected an ECMAScript module asset for this module part"
    );
    assert_eq!(
        FacadeError::ExportShapeMismatch.message(),
        "facade modules must only be used on modules with ESM exports"
    );
    assert_eq!(
        FacadeError::InvalidPart.message(),
        "unexpected module part for a facade module"
    );
    assert_eq!(
        FacadeError::CapabilityMissing.message(),
        "chunking context must support ECMAScript chunking to use a facade module"
    );
    assert_eq!(
        FacadeError::UnreachableContentAccess.message(),
        "content of a facade module is only available through its chunk item"
    );
}
