# Cadence

Gestion des adhérents et des activités d'une association : personnes et
responsables légaux des mineurs, adhésions par année scolaire, activités et
inscriptions avec contrôle de capacité, créneaux hebdomadaires et plage
horaire d'ouverture, connexion à une base locale ou distante.

## Organisation

- `src/` : la bibliothèque `cadence`, vérifiée par Verus. Chaque fonction
  publique énonce son résultat dans son contrat ; les propriétés qui relient
  plusieurs fonctions sont des fonctions de preuve publiques nommées `loi_…`.
  - `texte` : primitives sur les chaînes (lecture décimale comme
    `u32::from_str`, ordre des chaînes, `trim`, recherche de sous-chaîne) ;
  - `domaine` : calendrier, personnes, adhésions, activités, planning,
    paramètres de la plage horaire et calcul de la place d'un créneau déplacé ;
  - `services` : impacts d'une réduction de la plage horaire et décision
    d'application, règles des inscriptions et des créneaux ;
  - `depots` : requêtes de la recherche de personnes, lignes lues en base ;
  - `infrastructure` : configuration de connexion, compatibilité des
    migrations, reprise des requêtes sur perte du flux distant.
- `tests/` : tests exécutables de la bibliothèque.
- `app/` : programme en ligne de commande autour de la bibliothèque (fichier
  de configuration, accès à la base libsql, affichage JSON).

Les scripts SQL des migrations sont lus au lancement dans un dossier donné
sur la ligne de commande, sous leurs noms connus de la bibliothèque.
