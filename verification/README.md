# los

Line-of-sight terrain analysis: elevation lookup in digital elevation models
(DEMs), line-of-sight and viewshed computation, and topographic maps with the
terrain hidden from a viewer darkened.

## Layout

- `src/` is the verified library (Verus). It holds the data model (dataset
  locations, error types, source and reader kinds), the integer raster
  arithmetic (the pixel window prefetched from a DEM raster and the cell that
  holds a pixel's elevation), the map highlighting (shading of hidden pixels
  and the viewer's marker, drawn with the `image` crate), the text rendering of
  viewshed grids, and the decisions of the DEM and topographic-map sources.
  Its functions carry contracts that Verus proves; the few calls into the
  `image` crate are trusted items whose contracts state what that crate does.
- `app/` is the command-line program around the library: argument parsing,
  file, network and database I/O, GDAL and GeoTIFF access, and the
  floating-point geometry (bounding boxes, coordinate transforms, the
  line-of-sight bisection and viewshed sampling).
- `tests/` exercises the library on concrete values.
