//! Suivi des migrations : nom d'une migration reprise de l'ancien registre,
//! lot transactionnel d'une migration.
use vstd::prelude::*;

use crate::texte::{ajouter_texte, decimal_signe, ecrire_entier, pousser};

verus! {

/// Nom de fichier d'une migration de l'ancien registre : `version_description.sql`.
pub fn nom_migration_sqlx(version: i64, description: &str) -> (r: String)
    ensures
        r@ == decimal_signe(version as int) + seq!['_'] + description@ + ".sql"@,
{
    let mut r = String::new();
    ecrire_entier(&mut r, version);
    pousser(&mut r, '_');
    ajouter_texte(&mut r, description);
    ajouter_texte(&mut r, ".sql");
    assert(r@ =~= decimal_signe(version as int) + seq!['_'] + description@ + ".sql"@);
    r
}

/// Le script d'une migration encadré d'une transaction.
pub fn lot_migration(sql: &str) -> (r: String)
    ensures
        r@ == "BEGIN;\n"@ + sql@ + "\nCOMMIT;"@,
{
    let mut r = String::new();
    ajouter_texte(&mut r, "BEGIN;\n");
    ajouter_texte(&mut r, sql);
    ajouter_texte(&mut r, "\nCOMMIT;");
    assert(r@ =~= "BEGIN;\n"@ + sql@ + "\nCOMMIT;"@);
    r
}

} // verus!
